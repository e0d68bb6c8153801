use querent_core::complete::types::{Completion, CompletionKind};
use querent_core::engine::context::{ClauseKind, Cursor, Location};
use querent_core::engine::provider::table::{qualified_table_completions, supports, table_completions};
use querent_core::lex::{Keyword, OpTag};
use querent_core::span::Span;

fn pairs(items: &[(&str, &str)]) -> Vec<(String, String)> {
    items.iter().map(|(t, s)| (t.to_string(), s.to_string())).collect()
}

fn names(items: &[&str]) -> Vec<String> {
    items.iter().map(|s| s.to_string()).collect()
}

fn table(name: &str, qualifier: Option<&str>, replace: Span) -> Completion {
    Completion {
        label: name.to_string(),
        insert_text: name.to_string(),
        filter_text: Some(name.to_string()),
        kind: CompletionKind::Table,
        qualifier: qualifier.map(|q| q.to_string()),
        replace,
        commit_characters: &[' ', ',', '\n'],
    }
}

fn cursor(location: Location, qualifier: Option<&str>, current: Option<Keyword>, preceding: Vec<Keyword>) -> Cursor {
    Cursor {
        position: 0,
        location,
        fragment: String::new(),
        replace: Span::new(0, 0),
        preceding,
        current_keyword: current,
        qualifier: qualifier.map(|q| q.to_string()),
    }
}

fn columns_offered(clause: ClauseKind, c: &Cursor) -> bool {
    querent_core::engine::provider::column::supports(clause, c)
}

fn at(location: Location) -> Cursor {
    cursor(location, None, None, vec![])
}

fn space(inner: Location) -> Location {
    Location::Space(Box::new(inner))
}

#[test]
fn tables_offered_after_from_comma_or_schema_dot() {
    assert!(supports(ClauseKind::From, &at(space(Location::Keyword))));
    assert!(supports(ClauseKind::From, &at(space(Location::Comma))));
    assert!(supports(ClauseKind::From, &cursor(Location::Dot, Some("public"), None, vec![])));
    assert!(!supports(ClauseKind::From, &at(Location::Dot)));
    assert!(!supports(ClauseKind::Where, &at(space(Location::Keyword))));
    assert!(!supports(ClauseKind::From, &at(Location::Keyword)));
    assert!(!supports(ClauseKind::From, &at(space(Location::Ident))));
    assert!(!supports(ClauseKind::From, &at(Location::Comma)));
}

#[test]
fn columns_offered_by_clause_and_location() {
    assert!(columns_offered(ClauseKind::Select, &at(space(Location::Keyword))));
    assert!(columns_offered(ClauseKind::Select, &at(space(Location::Comma))));
    assert!(columns_offered(ClauseKind::Select, &at(Location::Dot)));
    assert!(!columns_offered(ClauseKind::Select, &at(Location::Ident)));
    assert!(!columns_offered(ClauseKind::From, &at(space(Location::Keyword))));
    assert!(columns_offered(ClauseKind::From, &cursor(space(Location::Keyword), None, Some(Keyword::On), vec![])));
    assert!(columns_offered(
        ClauseKind::From,
        &cursor(space(Location::Operator(OpTag::And)), None, None, vec![Keyword::Select, Keyword::On])
    ));
    assert!(!columns_offered(ClauseKind::From, &at(space(Location::Operator(OpTag::And)))));
    assert!(columns_offered(ClauseKind::From, &at(Location::Dot)));
    assert!(columns_offered(ClauseKind::Where, &at(space(Location::Operator(OpTag::Or)))));
    assert!(!columns_offered(ClauseKind::Where, &at(space(Location::Operator(OpTag::Eq)))));
    assert!(columns_offered(ClauseKind::GroupBy, &at(space(Location::Comma))));
    assert!(!columns_offered(ClauseKind::OrderBy, &at(Location::Dot)));
    assert!(columns_offered(ClauseKind::Using, &at(Location::Paren)));
    assert!(columns_offered(ClauseKind::Using, &at(space(Location::Paren))));
    assert!(!columns_offered(ClauseKind::Other, &at(space(Location::Keyword))));
}

#[test]
fn all_tables_in_catalog_order_with_schema_qualifier() {
    let r = Span::new(14, 14);
    let res = table_completions(
        pairs(&[("users", "public"), ("orders", "public"), ("events", "")]),
        names(&["users"]),
        false,
        r,
    );
    assert_eq!(
        res,
        vec![table("users", Some("public"), r), table("orders", Some("public"), r), table("events", None, r)]
    );
}

#[test]
fn after_comma_tables_in_from_are_left_out() {
    let r = Span::new(21, 21);
    let res = table_completions(
        pairs(&[("users", "public"), ("orders", "public"), ("users", "audit")]),
        names(&["users"]),
        true,
        r,
    );
    assert_eq!(res, vec![table("orders", Some("public"), r)]);
}

#[test]
fn empty_catalog_gives_no_tables() {
    assert!(table_completions(vec![], names(&["users"]), true, Span::new(0, 0)).is_empty());
}

#[test]
fn qualified_tables_carry_the_qualifier() {
    let r = Span::new(21, 21);
    let res = qualified_table_completions(names(&["users", "orders"]), "public".to_string(), r);
    assert_eq!(res, vec![table("users", Some("public"), r), table("orders", Some("public"), r)]);
}
