//! A cursor over a token slice.
use vstd::prelude::*;

use crate::lex::types::{OpTag, Token, TokenKind};

verus! {

/// Tokens and a position in them.
#[derive(Debug)]
pub struct TokenTape<'a> {
    pub tokens: &'a [Token],
    pub pos: usize,
}

/// The kind of the token at `i`, where there is one.
pub open spec fn kind_at(ts: Seq<Token>, i: int) -> Option<TokenKind> {
    if 0 <= i < ts.len() {
        Some(ts[i].kind)
    } else {
        None
    }
}

impl<'a> TokenTape<'a> {
    /// The position lies within the tokens (at their end included).
    pub open spec fn wf(&self) -> bool {
        self.pos <= self.tokens@.len()
    }

    /// How many tokens are left.
    pub open spec fn rem(&self) -> nat {
        (self.tokens@.len() - self.pos) as nat
    }

    /// A tape at the first token.
    pub fn new(tokens: &'a [Token]) -> (res: Self)
        ensures
            res.tokens@ == tokens@,
            res.pos == 0,
    {
        TokenTape { tokens, pos: 0 }
    }

    /// The token at the position.
    pub fn current(&self) -> (res: Option<&'a Token>)
        requires
            self.wf(),
        ensures
            res == (if self.pos < self.tokens@.len() {
                Some(&self.tokens@[self.pos as int])
            } else {
                None
            }),
    {
        if self.pos < self.tokens.len() {
            Some(&self.tokens[self.pos])
        } else {
            None
        }
    }

    /// The kind of the token at the position.
    pub fn current_kind(&self) -> (res: Option<TokenKind>)
        requires
            self.wf(),
        ensures
            res == kind_at(self.tokens@, self.pos as int),
    {
        if self.pos < self.tokens.len() {
            Some(self.tokens[self.pos].kind)
        } else {
            None
        }
    }

    /// The kind of the token after the one at the position.
    pub fn peek_kind(&self) -> (res: Option<TokenKind>)
        requires
            self.wf(),
        ensures
            res == kind_at(self.tokens@, self.pos + 1),
    {
        if self.pos < self.tokens.len() && self.pos + 1 < self.tokens.len() {
            Some(self.tokens[self.pos + 1].kind)
        } else {
            None
        }
    }

    /// The token before the position.
    pub fn prev(&self) -> (res: Option<&'a Token>)
        requires
            self.wf(),
        ensures
            res == (if 0 < self.pos {
                Some(&self.tokens@[self.pos - 1])
            } else {
                None
            }),
    {
        if self.pos > 0 {
            Some(&self.tokens[self.pos - 1])
        } else {
            None
        }
    }

    /// Move past the token at the position and hand it back; at the end,
    /// nothing moves.
    pub fn advance(&mut self) -> (res: Option<&'a Token>)
        requires
            old(self).wf(),
        ensures
            final(self).wf(),
            final(self).tokens@ == old(self).tokens@,
            old(self).pos < old(self).tokens@.len() ==> final(self).pos == old(self).pos + 1
                && res == Some(&old(self).tokens@[old(self).pos as int]),
            old(self).pos >= old(self).tokens@.len() ==> final(self).pos == old(self).pos
                && res is None,
    {
        if self.pos < self.tokens.len() {
            let t = &self.tokens[self.pos];
            self.pos = self.pos + 1;
            Some(t)
        } else {
            None
        }
    }

    /// Whether the token at the position has the kind.
    pub fn is_at(&self, k: TokenKind) -> (res: bool)
        requires
            self.wf(),
        ensures
            res == (kind_at(self.tokens@, self.pos as int) == Some(k)),
    {
        match self.current_kind() {
            Some(c) => c == k,
            None => false,
        }
    }

    /// The semantic tag of the operator at the position, where there is one.
    pub fn current_operator_tag(&self) -> (res: Option<OpTag>)
        requires
            self.wf(),
        ensures
            res == (match kind_at(self.tokens@, self.pos as int) {
                Some(TokenKind::Operator(op)) => Some(op.semantic_tag),
                _ => None::<OpTag>,
            }),
    {
        match self.current_kind() {
            Some(TokenKind::Operator(op)) => Some(op.semantic_tag),
            _ => None,
        }
    }
}

/// A tape over the tokens, at the first one.
pub fn token_tape<'a>(tokens: &'a [Token]) -> (res: TokenTape<'a>)
    ensures
        res.tokens@ == tokens@,
        res.pos == 0,
{
    TokenTape::new(tokens)
}

} // verus!
