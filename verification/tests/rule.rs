use querent_core::lex::rule::{Cond, Dir};
use querent_core::lex::{Assoc, Fixity, Keyword, OpTag, Operator, TokenKind};

#[test]
fn rule_test_if_end() {
    // Forward direction - at end of tokens
    let t = vec![TokenKind::Keyword(Keyword::Select)];
    assert_eq!(Some(1), Cond::End.match_from(&t, Dir::Fwd, 1));

    // Forward direction - not at end
    assert_eq!(None, Cond::End.match_from(&t, Dir::Fwd, 0));

    // Backward direction - empty tokens
    assert_eq!(Some(0), Cond::End.match_from(&vec![], Dir::Bwd, 0));

    // Backward direction - non-empty tokens
    let t = vec![TokenKind::Keyword(Keyword::Select)];
    assert_eq!(Some(0), Cond::End.match_from(&t, Dir::Bwd, 0));

    // Backward direction
    let t = vec![TokenKind::Keyword(Keyword::Select)];
    assert_eq!(None, Cond::End.match_from(&t, Dir::Bwd, 1));
}

#[test]
fn rule_test_if_kw() {
    let t = vec![
        TokenKind::Keyword(Keyword::Select),
        TokenKind::Keyword(Keyword::From),
    ];

    // Match - Forward
    assert_eq!(
        Some(1),
        Cond::Kw(Keyword::Select).match_from(&t, Dir::Fwd, 0)
    );

    // No match - Forward
    assert_eq!(None, Cond::Kw(Keyword::Where).match_from(&t, Dir::Fwd, 0));

    // Match - Backward
    assert_eq!(Some(1), Cond::Kw(Keyword::From).match_from(&t, Dir::Bwd, 2));

    // No match - Backward
    assert_eq!(None, Cond::Kw(Keyword::Select).match_from(&t, Dir::Bwd, 2));
}

#[test]
fn rule_test_if_op() {
    
    let t = vec![
        TokenKind::Operator(Operator {
            precedence: 10,
            assoc: Assoc::Left,
            semantic_tag: OpTag::Add,
            fixity: Fixity::Infix,
        }),
        TokenKind::Operator(Operator {
            precedence: 5,
            assoc: Assoc::Left,
            semantic_tag: OpTag::Eq,
            fixity: Fixity::Infix,
        }),
    ];

    // Match - Forward
    assert_eq!(Some(1), Cond::Op(OpTag::Add).match_from(&t, Dir::Fwd, 0));

    // No match - Forward
    assert_eq!(None, Cond::Op(OpTag::Eq).match_from(&t, Dir::Fwd, 0));

    // Match - Backward
    assert_eq!(Some(1), Cond::Op(OpTag::Eq).match_from(&t, Dir::Bwd, 2));
}

#[test]
fn rule_test_if_kind() {
    let t = vec![TokenKind::Identifier, TokenKind::Number, TokenKind::Str];

    // Match - Forward
    assert_eq!(
        Some(1),
        Cond::Kind(TokenKind::Identifier).match_from(&t, Dir::Fwd, 0)
    );

    // No match - Forward
    assert_eq!(
        None,
        Cond::Kind(TokenKind::Number).match_from(&t, Dir::Fwd, 0)
    );

    // Match - Backward
    assert_eq!(
        Some(2),
        Cond::Kind(TokenKind::Str).match_from(&t, Dir::Bwd, 3)
    );
}

