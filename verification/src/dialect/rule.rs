//! Building blocks for follow rules: single-token tests and the constructors
//! the rule tables are written with.
use vstd::prelude::*;

use crate::lex::rule::Cond;
use crate::lex::{Keyword, OpTag, TokenKind};

verus! {

/// A test on a single token.
#[derive(Debug, Clone, Copy, PartialEq, Eq)]
pub enum Tok {
    /// The keyword.
    Kw(Keyword),
    /// Any operator.
    AnyOp,
    /// An operator with the semantic tag.
    Op(OpTag),
    /// A token of exactly this kind.
    Kind(TokenKind),
    /// Accepts any token (a probe used while writing rules).
    Debug,
}

/// Whether a token passes a single-token test.
pub open spec fn spec_test_kind(tok: Tok, token: TokenKind) -> bool {
    match tok {
        Tok::Kw(k) => token == TokenKind::Keyword(k),
        Tok::Op(o) => match token {
            TokenKind::Operator(op) => op.semantic_tag == o,
            _ => false,
        },
        Tok::Kind(k) => token == k,
        Tok::AnyOp => token is Operator,
        Tok::Debug => true,
    }
}

impl Tok {
    /// Whether `token` passes this test.
    pub fn test(&self, token: &TokenKind) -> (res: bool)
        ensures
            res == spec_test_kind(*self, *token),
    {
        match self {
            Tok::Kw(k) => match token {
                TokenKind::Keyword(t) => *t == *k,
                _ => false,
            },
            Tok::Op(o) => match token {
                TokenKind::Operator(op) => op.semantic_tag == *o,
                _ => false,
            },
            Tok::Kind(k) => *token == *k,
            Tok::AnyOp => match token {
                TokenKind::Operator(_) => true,
                _ => false,
            },
            Tok::Debug => true,
        }
    }
}

/// A test for the keyword.
pub fn kw(k: Keyword) -> (res: Cond)
    ensures
        res == Cond::Kw(k),
{
    Cond::Kw(k)
}

/// A test for an operator with the semantic tag.
pub fn op(o: OpTag) -> (res: Cond)
    ensures
        res == Cond::Op(o),
{
    Cond::Op(o)
}

/// A test for any operator.
pub fn any_op() -> (res: Cond)
    ensures
        res == Cond::AnyOp,
{
    Cond::AnyOp
}

/// A test for a token of the kind.
pub fn tk(k: TokenKind) -> (res: Cond)
    ensures
        res == Cond::Kind(k),
{
    Cond::Kind(k)
}

/// The edge of the input.
pub fn end() -> (res: Cond)
    ensures
        res == Cond::End,
{
    Cond::End
}

/// The first alternative that matches.
pub fn or(alts: Vec<Cond>) -> (res: Cond)
    ensures
        res == Cond::Any(alts),
{
    Cond::Any(alts)
}

/// Each pattern in turn.
pub fn chain(parts: Vec<Cond>) -> (res: Cond)
    ensures
        res == Cond::Sequence(parts),
{
    Cond::Sequence(parts)
}

/// The pattern as often as it matches (zero times included).
pub fn many(c: Cond) -> (res: Cond)
    ensures
        res == Cond::Many(Box::new(c)),
{
    Cond::Many(Box::new(c))
}

/// One token on which the pattern does not match.
pub fn not(c: Cond) -> (res: Cond)
    ensures
        res == Cond::Not(Box::new(c)),
{
    Cond::Not(Box::new(c))
}

/// The pattern, without consuming anything.
pub fn peek(c: Cond) -> (res: Cond)
    ensures
        res == Cond::Peek(Box::new(c)),
{
    Cond::Peek(Box::new(c))
}

/// Tokens up to and including the first place the pattern matches.
pub fn until(c: Cond) -> (res: Cond)
    ensures
        res == Cond::Until(Box::new(c)),
{
    Cond::Until(Box::new(c))
}

/// A balanced group between an opening and a closing pattern.
pub fn scoped(open: Cond, close: Cond) -> (res: Cond)
    ensures
        res == Cond::Scoped(Box::new(open), Box::new(close)),
{
    Cond::Scoped(Box::new(open), Box::new(close))
}

} // verus!
