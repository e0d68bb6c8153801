use querent_core::complete::test_util::scenario::{Assert, CompletionMatcher};
use querent_core::complete::test_util::v2::{CompletionAssertion, TestFailure};
use querent_core::complete::types::{Completion, CompletionKind};
use querent_core::span::Span;

fn completion(label: &str, kind: CompletionKind) -> Completion {
    Completion {
        label: label.to_string(),
        insert_text: label.to_string(),
        filter_text: None,
        kind,
        qualifier: None,
        replace: Span::new(0, 0),
        commit_characters: &[],
    }
}

fn label(s: &str) -> CompletionMatcher {
    CompletionMatcher::Label(s.to_string())
}

fn columns() -> Vec<Completion> {
    vec![
        completion("id", CompletionKind::Column),
        completion("name", CompletionKind::Column),
        completion("users", CompletionKind::Table),
        completion("id", CompletionKind::Table),
    ]
}

#[test]
fn matcher_checks_label_text_kind_and_all_of() {
    let c = Completion {
        label: "users".to_string(),
        insert_text: "public.users".to_string(),
        filter_text: None,
        kind: CompletionKind::Table,
        qualifier: None,
        replace: Span::new(0, 0),
        commit_characters: &[],
    };
    assert!(label("users").matches(&c));
    assert!(!label("public.users").matches(&c));
    assert!(CompletionMatcher::InsertText("public.users".to_string()).matches(&c));
    assert!(CompletionMatcher::Kind(CompletionKind::Table).matches(&c));
    assert!(CompletionMatcher::AllOf(vec![label("users"), CompletionMatcher::Kind(CompletionKind::Table)]).matches(&c));
    assert!(!CompletionMatcher::AllOf(vec![label("users"), CompletionMatcher::Kind(CompletionKind::Column)]).matches(&c));
    assert!(CompletionMatcher::AllOf(vec![]).matches(&c));
}

#[test]
fn duplicate_matcher_behaves_alike() {
    let m = CompletionMatcher::AllOf(vec![label("id"), CompletionMatcher::Kind(CompletionKind::Table)]);
    let d = m.duplicate();
    for c in columns() {
        assert_eq!(m.matches(&c), d.matches(&c));
    }
}

#[test]
fn starts_needs_the_first_completions_one_for_one() {
    let cs = columns();
    assert!(Assert::starts(vec![label("id"), label("name")]).matches(&cs));
    assert!(!Assert::starts(vec![label("name")]).matches(&cs));
    assert!(!Assert::starts(vec![label("id"), label("name")]).matches(&cs[..1]));
    assert!(Assert::starts(vec![]).matches(&[]));
}

#[test]
fn contains_and_none_of() {
    let cs = columns();
    assert!(Assert::contains(vec![label("users"), label("id")]).matches(&cs));
    assert!(!Assert::contains(vec![label("users"), label("email")]).matches(&cs));
    assert!(Assert::none_of(vec![label("email"), label("posts")]).matches(&cs));
    assert!(!Assert::none_of(vec![label("email"), label("users")]).matches(&cs));
    assert!(Assert::none_of(vec![CompletionMatcher::Kind(CompletionKind::Function)]).matches(&cs));
}

#[test]
fn in_order_compares_first_matches() {
    let cs = columns();
    assert!(Assert::in_order(vec![label("id"), label("name"), label("users")]).matches(&cs));
    assert!(!Assert::in_order(vec![label("users"), label("name")]).matches(&cs));
    assert!(Assert::in_order(vec![label("id"), label("id")]).matches(&cs));
    assert!(!Assert::in_order(vec![label("id"), label("email")]).matches(&cs));
}

#[test]
fn combined_needs_every_expectation() {
    let cs = columns();
    let ok = Assert::Combined(vec![
        Assert::starts(vec![label("id")]),
        Assert::none_of(vec![label("email")]),
    ]);
    assert!(ok.matches(&cs));
    let bad = Assert::Combined(vec![
        Assert::starts(vec![label("id")]),
        Assert::contains(vec![label("email")]),
    ]);
    assert!(!bad.matches(&cs));
    assert!(Assert::Combined(vec![]).matches(&cs));
}

#[test]
fn verify_reports_the_first_failure() {
    let cs = columns();
    assert!(CompletionAssertion::Contains(vec![label("users")]).verify(&cs).is_ok());
    match CompletionAssertion::Contains(vec![label("users"), label("email")]).verify(&cs) {
        Err(TestFailure::MissingExpected(m)) => assert!(matches!(m, CompletionMatcher::Label(ref s) if s == "email")),
        other => panic!("unexpected {:?}", other),
    }
    match CompletionAssertion::InOrder(vec![label("users"), label("name")]).verify(&cs) {
        Err(TestFailure::IncorrectOrder(before, after)) => {
            assert_eq!(before, completion("users", CompletionKind::Table));
            assert_eq!(after, completion("name", CompletionKind::Column));
        },
        other => panic!("unexpected {:?}", other),
    }
    match CompletionAssertion::NoneOf(vec![label("email"), CompletionMatcher::Kind(CompletionKind::Table)]).verify(&cs) {
        Err(TestFailure::UnexpectedCompletion(c)) => assert_eq!(c, completion("users", CompletionKind::Table)),
        other => panic!("unexpected {:?}", other),
    }
    let combined = CompletionAssertion::Combined(vec![
        CompletionAssertion::Contains(vec![label("id")]),
        CompletionAssertion::InOrder(vec![label("id"), label("missing")]),
    ]);
    assert!(matches!(combined.verify(&cs), Err(TestFailure::MissingExpected(_))));
}

#[test]
fn matchers_in_order_are_also_contained() {
    let cs = columns();
    let ms = || vec![label("id"), label("users")];
    assert!(Assert::in_order(ms()).matches(&cs));
    assert!(Assert::contains(ms()).matches(&cs));
}
