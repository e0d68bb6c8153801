use querent_core::engine::context::cursor::{detect_cursor, Cursor, Location};
use querent_core::lex::{Keyword, OpTag};
use querent_core::span::Span;
use querent_core::test_util::{ansi_lex, get_caret_cursor};

fn ansi_detect_cursor(sql: &str) -> Cursor {
    let (text, pos) = get_caret_cursor(sql);
    let tokens = ansi_lex(&text);
    detect_cursor(&text, &tokens, pos)
}

#[test]
fn start() {
    let text = ansi_detect_cursor("^");
    assert_eq!(text.location, Location::Start);
}

#[test]
fn comma() {
    let text = ansi_detect_cursor("SELECT one,^ FROM users");
    assert_eq!(text.location, Location::Comma);
    assert_eq!(text.preceding, vec![Keyword::Select]);
    let text = ansi_detect_cursor("SELECT one, ^ FROM users");
    assert_eq!(text.location, Location::Space(Box::new(Location::Comma)));
}

#[test]
fn dot() {
    let text = ansi_detect_cursor("SELECT one.^ FROM users");
    assert_eq!(text.location, Location::Dot);
    let text = ansi_detect_cursor("SELECT one. ^ FROM users");
    assert_eq!(text.location, Location::Space(Box::new(Location::Dot)));
}

#[test]
fn operator() {
    let text = ansi_detect_cursor("SELECT one +^ FROM users");
    assert_eq!(text.location, Location::Operator(OpTag::Add));
    let text = ansi_detect_cursor("SELECT one + ^ FROM users");
    assert_eq!(
        text.location,
        Location::Space(Box::new(Location::Operator(OpTag::Add)))
    );
}

#[test]
fn ident() {
    let text = ansi_detect_cursor("SELECT one^ FROM users");
    assert_eq!(text.location, Location::Ident);
    assert_eq!(text.fragment, "one");
    assert_eq!(text.replace, Span::new(7, 10));
    let text = ansi_detect_cursor("SELECT one ^ FROM users");
    assert_eq!(text.location, Location::Space(Box::new(Location::Ident)));
    assert_eq!(text.fragment, "");
}

#[test]
fn keyword() {
    let text = ansi_detect_cursor("SELECT^ FROM users");
    assert_eq!(text.location, Location::Keyword);
    let text = ansi_detect_cursor("SELECT ^ FROM users");
    assert_eq!(text.location, Location::Space(Box::new(Location::Keyword)));
}

#[test]
fn quoted_ident() {
    let text = ansi_detect_cursor(r#"SELECT "one^" FROM users"#);
    assert_eq!(text.location, Location::Ident);
    assert_eq!(text.fragment, "one");
    assert_eq!(text.replace, Span::new(8, 11));
}

#[test]
fn preceding() {
    let text = ansi_detect_cursor("SELECT * FROM users WHERE name = 'John'^");
    assert_eq!(
        text.preceding,
        vec![Keyword::Select, Keyword::From, Keyword::Where]
    );
}

#[test]
fn cursor_qualifier_after_dot() {
    let text = ansi_detect_cursor("SELECT users.^ FROM users");
    assert_eq!(text.location, Location::Dot);
    assert_eq!(text.qualifier, Some("users".to_string()));
    let text = ansi_detect_cursor(r#"SELECT "Users".^ FROM users"#);
    assert_eq!(text.qualifier, Some("Users".to_string()));
}

#[test]
fn cursor_current_keyword_and_literal() {
    let text = ansi_detect_cursor("SELECT * FROM^");
    assert_eq!(text.current_keyword, Some(Keyword::From));
    let text = ansi_detect_cursor("SELECT 1^");
    assert_eq!(text.location, Location::Literal);
    assert_eq!(text.current_keyword, None);
    let text = ansi_detect_cursor("SELECT * FROM (^");
    assert_eq!(text.location, Location::Paren);
}
