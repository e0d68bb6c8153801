use querent_core::dialect::follow::{Cond, Dir};
use querent_core::lex::{Assoc, Fixity, Keyword, OpTag, Operator, TokenKind};

#[test]
fn follow_test_if_end() {
    // Forward direction - at end of tokens
    let tokens = vec![TokenKind::Keyword(Keyword::Select)];
    let (matched, offset) = Cond::End.scan_from(&tokens, Dir::Fwd, 1);
    assert!(matched);
    assert_eq!(offset, 1);

    // Forward direction - not at end
    let (matched, offset) = Cond::End.scan_from(&tokens, Dir::Fwd, 0);
    assert!(!matched);
    assert_eq!(offset, 0);

    // Backward direction - empty tokens
    let tokens: Vec<TokenKind> = vec![];
    let (matched, offset) = Cond::End.scan_from(&tokens, Dir::Bwd, 0);
    assert!(matched);
    assert_eq!(offset, 0);

    // Backward direction - non-empty tokens
    let tokens = vec![TokenKind::Keyword(Keyword::Select)];
    let (matched, offset) = Cond::End.scan_from(&tokens, Dir::Bwd, 0);
    assert!(matched);
    assert_eq!(offset, 0);

    // Backward direction
    let tokens = vec![TokenKind::Keyword(Keyword::Select)];
    let (matched, offset) = Cond::End.scan_from(&tokens, Dir::Bwd, 1);
    assert!(!matched);
    assert_eq!(offset, 1);
}

#[test]
fn follow_test_if_kw() {
    let tokens = vec![
        TokenKind::Keyword(Keyword::Select),
        TokenKind::Keyword(Keyword::From),
    ];

    // Match - Forward
    let (matched, offset) = Cond::Kw(Keyword::Select).scan_from(&tokens, Dir::Fwd, 0);
    assert!(matched);
    assert_eq!(offset, 1);

    // No match - Forward
    let (matched, offset) = Cond::Kw(Keyword::Where).scan_from(&tokens, Dir::Fwd, 0);
    assert!(!matched);
    assert_eq!(offset, 0);

    // Match - Backward
    let (matched, offset) = Cond::Kw(Keyword::From).scan_from(&tokens, Dir::Bwd, 2);
    assert!(matched);
    assert_eq!(offset, 1);

    // No match - Backward
    let (matched, offset) = Cond::Kw(Keyword::Select).scan_from(&tokens, Dir::Bwd, 2);
    assert!(!matched);
    assert_eq!(offset, 2);
}

#[test]
fn follow_test_if_op() {
    
    let tokens = vec![
        TokenKind::Operator(Operator {
            precedence: 10,
            assoc: Assoc::Left,
            semantic_tag: OpTag::Add,
            fixity: Fixity::Infix,
        }),
        TokenKind::Operator(Operator {
            precedence: 5,
            assoc: Assoc::Left,
            semantic_tag: OpTag::Eq,
            fixity: Fixity::Infix,
        }),
    ];

    // Match - Forward
    let (matched, offset) = Cond::Op(OpTag::Add).scan_from(&tokens, Dir::Fwd, 0);
    assert!(matched);
    assert_eq!(offset, 1);

    // No match - Forward
    let (matched, offset) = Cond::Op(OpTag::Eq).scan_from(&tokens, Dir::Fwd, 0);
    assert!(!matched);
    assert_eq!(offset, 0);

    // Match - Backward
    let (matched, offset) = Cond::Op(OpTag::Eq).scan_from(&tokens, Dir::Bwd, 2);
    assert!(matched);
    assert_eq!(offset, 1);
}

#[test]
fn follow_test_if_kind() {
    let tokens = vec![TokenKind::Identifier, TokenKind::Number, TokenKind::Str];

    // Match - Forward
    let (matched, offset) = Cond::Kind(TokenKind::Identifier).scan_from(&tokens, Dir::Fwd, 0);
    assert!(matched);
    assert_eq!(offset, 1);

    // No match - Forward
    let (matched, offset) = Cond::Kind(TokenKind::Number).scan_from(&tokens, Dir::Fwd, 0);
    assert!(!matched);
    assert_eq!(offset, 0);

    // Match - Backward
    let (matched, offset) = Cond::Kind(TokenKind::Str).scan_from(&tokens, Dir::Bwd, 3);
    assert!(matched);
    assert_eq!(offset, 2);
}

#[test]
fn test_if_any() {
    let tokens = vec![TokenKind::Keyword(Keyword::Select), TokenKind::Identifier];

    // Match first condition
    let any = Cond::Any(vec![Cond::Kw(Keyword::Select), Cond::Kw(Keyword::From)]);
    let (matched, offset) = any.scan_from(&tokens, Dir::Fwd, 0);
    assert!(matched);
    assert_eq!(offset, 1);

    // Match second condition
    let any = Cond::Any(vec![Cond::Kw(Keyword::From), Cond::Kind(TokenKind::Identifier)]);
    let (matched, offset) = any.scan_from(&tokens, Dir::Fwd, 1);
    assert!(matched);
    assert_eq!(offset, 2);

    // No match
    let any = Cond::Any(vec![Cond::Kw(Keyword::Where), Cond::Kw(Keyword::From)]);
    let (matched, offset) = any.scan_from(&tokens, Dir::Fwd, 0);
    assert!(!matched);
    assert_eq!(offset, 0);

    // Backward direction
    let any = Cond::Any(vec![Cond::Kw(Keyword::Where), Cond::Kind(TokenKind::Identifier)]);
    let (matched, offset) = any.scan_from(&tokens, Dir::Bwd, 2);
    assert!(matched);
    assert_eq!(offset, 1);
}

#[test]
fn test_if_not() {
    let tokens = vec![TokenKind::Keyword(Keyword::Select), TokenKind::Identifier];

    // Inner matches - negation fails
    let not = Cond::Not(Box::new(Cond::Kw(Keyword::Select)));
    let (matched, offset) = not.scan_from(&tokens, Dir::Fwd, 0);
    assert!(!matched);
    assert_eq!(offset, 0);

    // Inner doesn't match - negation succeeds
    let not = Cond::Not(Box::new(Cond::Kw(Keyword::From)));
    let (matched, offset) = not.scan_from(&tokens, Dir::Fwd, 0);
    assert!(matched);
    assert_eq!(offset, 1);

    // Backward direction
    let not = Cond::Not(Box::new(Cond::Kw(Keyword::Select)));
    let (matched, offset) = not.scan_from(&tokens, Dir::Bwd, 2);
    assert!(matched);
    assert_eq!(offset, 1);
}

#[test]
fn test_if_while() {
    let tokens = vec![
        TokenKind::Identifier,
        TokenKind::Identifier,
        TokenKind::Identifier,
        TokenKind::Keyword(Keyword::Select),
    ];

    // Consume while identifier
    let while_ = Cond::Many(Box::new(Cond::Kind(TokenKind::Identifier)));
    let (matched, offset) = while_.scan_from(&tokens, Dir::Fwd, 0);
    assert!(matched);
    assert_eq!(offset, 3); // Consumed 3 identifiers

    // Consume while from non-matching position
    let (matched, offset) = while_.scan_from(&tokens, Dir::Fwd, 3);
    assert!(matched);
    assert_eq!(offset, 3); // No consumption, but still "matches"

    let reversed_tokens = tokens.iter().rev().copied().collect::<Vec<_>>();

    // Backward direction
    let while_ = Cond::Many(Box::new(Cond::Kind(TokenKind::Identifier)));
    let (matched, offset) = while_.scan_from(&reversed_tokens, Dir::Bwd, 4);
    assert!(matched);
    assert_eq!(offset, 1);
}

#[test]
fn test_if_match() {
    let tokens = vec![
        TokenKind::Keyword(Keyword::Select),
        TokenKind::Identifier,
        TokenKind::Keyword(Keyword::From),
    ];

    // Match sequence - Forward
    let match_ = Cond::Sequence(vec![Cond::Kw(Keyword::Select), Cond::Kind(TokenKind::Identifier)]);
    let (matched, offset) = match_.scan_from(&tokens, Dir::Fwd, 0);
    assert!(matched);
    assert_eq!(offset, 2);

    // Match fails on second element
    let match_ = Cond::Sequence(vec![Cond::Kw(Keyword::Select), Cond::Kw(Keyword::Where)]);
    let (matched, offset) = match_.scan_from(&tokens, Dir::Fwd, 0);
    assert!(!matched);
    assert_eq!(offset, 1);

    // Match sequence - Backward
    let match_ = Cond::Sequence(vec![Cond::Kw(Keyword::Select), Cond::Kind(TokenKind::Identifier)]);
    let (matched, offset) = match_.scan_from(&tokens, Dir::Bwd, 2);
    assert!(matched);
    assert_eq!(offset, 0); // Note: moves backward through both tokens
}

#[test]
fn test_if_until() {
    let tokens = vec![
        TokenKind::Identifier,
        TokenKind::Identifier,
        TokenKind::Keyword(Keyword::From),
        TokenKind::Identifier,
    ];

    // Until keyword - Forward
    let until = Cond::Until(Box::new(Cond::Kw(Keyword::From)));
    let (matched, offset) = until.scan_from(&tokens, Dir::Fwd, 0);
    assert!(matched);
    assert_eq!(offset, 2); // Stopped at FROM

    // Until not found - Forward
    let until = Cond::Until(Box::new(Cond::Kw(Keyword::Where)));
    let (matched, offset) = until.scan_from(&tokens, Dir::Fwd, 0);
    assert!(!matched);
    assert_eq!(offset, 4); // Reached end

    let tokens = vec![
        TokenKind::Identifier,
        TokenKind::Keyword(Keyword::From),
        TokenKind::Identifier,
        TokenKind::Identifier,
    ];

    // Until keyword - Backward
    let until = Cond::Until(Box::new(Cond::Kw(Keyword::From)));
    let (matched, offset) = until.scan_from(&tokens, Dir::Bwd, 4);
    assert!(matched);
    assert_eq!(offset, 2); // Found identifier at position 1
}
