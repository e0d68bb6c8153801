use querent_core::complete::test_util::matcher::{
    CandidateMatch, Contains, Empty, Expect, ExpectMatcher, InOrder, Matcher, Starts,
};
use querent_core::complete::types::{Completion, CompletionKind};
use querent_core::span::Span;

fn item(label: &str, kind: CompletionKind) -> Completion {
    Completion {
        label: label.to_string(),
        insert_text: label.to_string(),
        filter_text: None,
        kind,
        qualifier: None,
        replace: Span::new(0, 0),
        commit_characters: &[],
    }
}

#[test]
fn expect_without_matchers_passes() {
    let e = Expect::new();
    assert!(e.check(&[item("a", CompletionKind::Table)]).is_ok());
    assert_eq!(e.format_expected(), "(no expectations set)\n");
}

#[test]
fn starts_checks_leading_labels() {
    let items = vec![item("users", CompletionKind::Table), item("posts", CompletionKind::Table)];
    assert!(Starts(vec!["users".to_string()]).check(&items).is_ok());
    assert!(Starts(vec!["posts".to_string()]).check(&items).is_err());
    let three = Starts(vec!["users".to_string(), "posts".to_string(), "x".to_string()]);
    assert!(three.check(&items).is_err());
}

#[test]
fn empty_checks_all_or_kinds() {
    let items = vec![item("users", CompletionKind::Table)];
    assert!(Empty(None).check(&items).is_err());
    assert!(Empty(None).check(&[]).is_ok());
    assert!(Empty(Some(vec![CompletionKind::Column])).check(&items).is_ok());
    assert!(Empty(Some(vec![CompletionKind::Table])).check(&items).is_err());
}

#[test]
fn expect_needs_every_matcher() {
    let items = vec![item("users", CompletionKind::Table)];
    let e = Expect::new()
        .and(ExpectMatcher::Starts(Starts(vec!["users".to_string()])))
        .and(ExpectMatcher::Empty(Empty(Some(vec![CompletionKind::Function]))));
    assert!(e.check(&items).is_ok());
    let f = e.and(ExpectMatcher::Empty(Empty(None)));
    assert!(f.check(&items).is_err());
    assert_eq!(
        f.format_expected(),
        "Starts with: [\"users\"]\nEmpty (no completions expected)\nEmpty (no completions expected)\n"
    );
}

fn full(label: &str, insert: &str, kind: CompletionKind) -> Completion {
    Completion {
        label: label.to_string(),
        insert_text: insert.to_string(),
        filter_text: None,
        kind,
        qualifier: None,
        replace: Span::new(0, 0),
        commit_characters: &[],
    }
}

#[test]
fn matcher_messages_are_exact() {
    let items = vec![item("users", CompletionKind::Table), item("id", CompletionKind::Column)];
    assert_eq!(
        Empty(None).check(&items).unwrap_err(),
        "Expected no completions, got 2:\n[\"users\", \"id\"]"
    );
    assert_eq!(
        Empty(Some(vec![CompletionKind::Function, CompletionKind::Column, CompletionKind::Table]))
            .check(&items)
            .unwrap_err(),
        "Expected no completions of kind Column"
    );
    assert_eq!(
        Starts(vec!["id".to_string()]).check(&items).unwrap_err(),
        "Expected to start with labels [\"id\"], got [\"users\"]"
    );
}

#[test]
fn expect_fails_with_first_failing_matcher() {
    let items = vec![item("users", CompletionKind::Table)];
    let e = Expect::new()
        .and(ExpectMatcher::Empty(Empty(Some(vec![CompletionKind::Column]))))
        .and(ExpectMatcher::Starts(Starts(vec!["posts".to_string()])))
        .and(ExpectMatcher::Empty(Empty(None)));
    assert_eq!(
        e.check(&items).unwrap_err(),
        "Expected to start with labels [\"posts\"], got [\"users\"]"
    );
}

#[test]
fn candidate_match_names_first_differing_field() {
    let c = full("users", "users", CompletionKind::Table);
    assert!(CandidateMatch::from("users").matches(&c).is_ok());
    assert_eq!(CandidateMatch::from("posts").matches(&c).unwrap_err(), "label");
    let k = CandidateMatch { label: Some("users".to_string()), kind: Some(CompletionKind::Column), insert_text: None };
    assert_eq!(k.matches(&c).unwrap_err(), "kind");
    let t = CandidateMatch { label: None, kind: None, insert_text: Some("x".to_string()) };
    assert_eq!(t.matches(&c).unwrap_err(), "insert_text");
}

#[test]
fn contains_and_in_order() {
    let items = vec![
        full("users", "users", CompletionKind::Table),
        full("id", "id", CompletionKind::Column),
    ];
    assert!(Contains(vec![CandidateMatch::from("id"), CandidateMatch::from("users")]).check(&items).is_ok());
    assert_eq!(
        Contains(vec![CandidateMatch::from("id"), CandidateMatch::from("x")]).check(&items).unwrap_err(),
        "Missing ({ label: x })\ngot: [\"users\", \"id\"]"
    );
    assert!(InOrder(vec![CandidateMatch::from("users"), CandidateMatch::from("id")]).check(&items).is_ok());
    assert_eq!(
        InOrder(vec![CandidateMatch::from("id"), CandidateMatch::from("users")]).check(&items).unwrap_err(),
        "Out of order: expected ({ label: users, kind: Table, insert_text: users }) after ({ label: id, kind: Column, insert_text: id })\ngot: [\"users\", \"id\"]"
    );
    let e = Expect::new()
        .and(ExpectMatcher::Contains(Contains(vec![CandidateMatch::from("id")])))
        .and(ExpectMatcher::InOrder(InOrder(vec![CandidateMatch::from("users"), CandidateMatch::from("id")])));
    assert!(e.check(&items).is_ok());
    assert_eq!(e.format_expected(), "Contains: 1 items\nIn order: 2 items\n");
}

#[test]
fn expectation_reports_what_its_first_failing_matcher_reports() {
    let items = vec![
        full("users", "users", CompletionKind::Table),
        full("id", "id", CompletionKind::Column),
    ];
    let e = Expect::new()
        .and(ExpectMatcher::Contains(Contains(vec![CandidateMatch::from("id")])))
        .and(ExpectMatcher::InOrder(InOrder(vec![CandidateMatch::from("id"), CandidateMatch::from("users")])))
        .and(ExpectMatcher::Contains(Contains(vec![CandidateMatch::from("x")])));
    let alone = InOrder(vec![CandidateMatch::from("id"), CandidateMatch::from("users")]).check(&items);
    assert_eq!(e.check(&items), alone);
    assert!(alone.is_err());
}
