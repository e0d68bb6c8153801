use querent_core::doc::{Content, Location};

#[test]
fn content_holds_text_and_cursor_starts_at_zero() {
    let doc = Content::new("SELECT 1");
    assert_eq!(doc.to_string(), "SELECT 1");
    assert_eq!(doc.cursor(), 0);
    assert_eq!(doc.content().len_chars(), 8);
}

#[test]
fn default_content_is_empty() {
    let doc = Content::default();
    assert_eq!(doc.to_string(), "");
    assert_eq!(doc.cursor(), 0);
}

#[test]
fn set_content_replaces_text_and_keeps_cursor() {
    let mut doc = Content::new("abc");
    doc.set_cursor(Location::Offset(2));
    doc.set_content("xyz\nuvw");
    assert_eq!(doc.to_string(), "xyz\nuvw");
    assert_eq!(doc.cursor(), 2);
}

#[test]
fn apply_edit_by_offsets_and_line_col() {
    let mut doc = Content::new("SELECT a FROM t");
    doc.apply_edit(Location::Offset(7), Location::Offset(8), "b, c");
    assert_eq!(doc.to_string(), "SELECT b, c FROM t");

    let mut doc = Content::new("SELECT 1;\nSELECT x FROM t");
    doc.apply_edit(Location::LineCol(1, 7), Location::LineCol(1, 8), "y");
    assert_eq!(doc.to_string(), "SELECT 1;\nSELECT y FROM t");

    // An insertion: an empty range.
    let mut doc = Content::new("ab");
    doc.apply_edit(Location::from(1usize), Location::from((0usize, 1usize)), "-");
    assert_eq!(doc.to_string(), "a-b");
}

#[test]
fn try_apply_edit_refuses_bad_ranges() {
    let mut doc = Content::new("abc");
    assert!(!doc.try_apply_edit(Location::Offset(2), Location::Offset(1), "x"));
    assert!(!doc.try_apply_edit(Location::Offset(0), Location::Offset(4), "x"));
    assert!(!doc.try_apply_edit(Location::LineCol(5, 0), Location::Offset(1), "x"));
    assert!(!doc.try_apply_edit(Location::LineCol(0, 9), Location::LineCol(0, 9), "x"));
    assert_eq!(doc.to_string(), "abc");
    assert!(doc.try_apply_edit(Location::Offset(1), Location::Offset(2), "Z"));
    assert_eq!(doc.to_string(), "aZc");
}

#[test]
fn cursor_is_a_byte_offset() {
    // 'é' takes two bytes, so the column-3 char on line 1 starts at byte 11.
    let mut doc = Content::new("SELECT 1;\néab");
    doc.set_cursor(Location::LineCol(1, 1));
    assert_eq!(doc.cursor(), 12);
    doc.set_cursor(Location::LineCol(1, 0));
    assert_eq!(doc.cursor(), 10);
    assert!(!doc.try_set_cursor(Location::LineCol(1, 9)));
    assert_eq!(doc.cursor(), 10);
    assert!(doc.try_set_cursor(Location::Offset(3)));
    assert_eq!(doc.cursor(), 3);
}

#[test]
fn line_col_of_byte_offsets() {
    let doc = Content::new("SELECT 1;\néab");
    assert_eq!(doc.get_line_col(Location::Offset(0)), (0, 0));
    assert_eq!(doc.get_line_col(Location::Offset(10)), (1, 0));
    // The second byte of 'é' falls in that char.
    assert_eq!(doc.get_line_col(Location::Offset(11)), (1, 0));
    assert_eq!(doc.get_line_col(Location::Offset(12)), (1, 1));
    // Past the end clamps to the end.
    assert_eq!(doc.get_line_col(Location::Offset(100)), (1, 3));
    assert_eq!(doc.get_line_col(Location::LineCol(4, 2)), (4, 2));
}

#[test]
fn an_edit_is_undone_by_its_inverse() {
    let mut doc = Content::new("SELECT id FROM users");
    doc.apply_edit(Location::Offset(7), Location::Offset(9), "name, email");
    assert_eq!(doc.to_string(), "SELECT name, email FROM users");
    doc.apply_edit(Location::Offset(7), Location::Offset(18), "id");
    assert_eq!(doc.to_string(), "SELECT id FROM users");
}
