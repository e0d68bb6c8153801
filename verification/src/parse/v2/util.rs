//! Token access and the list readers of the second parser.
use vstd::prelude::*;

use crate::ast::{
    Assignment, DelimitedList, Expr, GroupByItem, GroupingSet, Identifier, NamePart, OrderByItem,
    ProjectionItem, TableFactor, TableRef,
};
use crate::lex::tape::kind_at;
use crate::lex::{Keyword, OpTag, Token, TokenKind};
use crate::parse::expr::{kw_at, lone_literal_at, op_at};
use crate::parse::parser::{
    direction_at, alias_at, alias_of, item_end, item_list, item_ok, item_pos, items_are, join_tree_is, join_chain, named_factor_end, table_chain_at, table_chain_end, table_join_count, name_end, name_parts_at, name_tail_count, clause_end_kind, closer_kind, from_end_kind, ident_kind, literal_expr_at, name_part_at, one_part_name_at,
    simple_item_at, simple_item_is,
};
use crate::parse::v2::expr::{lone_literal, name_before};
use crate::parse::v2::{column_list_end, name_part_kind, word_kind, WinnowParser};
use crate::span::{Loc, Span};

verus! {

/// Where the token at `p` starts; past the end, where the last one ends; 0
/// for no tokens.
pub open spec fn spec_pos(ts: Seq<Token>, p: int) -> int {
    if 0 <= p < ts.len() {
        ts[p].span.start as int
    } else if 0 < p && p - 1 < ts.len() {
        ts[p - 1].span.end as int
    } else {
        0
    }
}

/// Where the token before `p` ends, or `fallback` at the start.
pub open spec fn spec_prev_end(ts: Seq<Token>, p: int, fallback: usize) -> int {
    if 0 < p <= ts.len() {
        ts[p - 1].span.end as int
    } else {
        fallback as int
    }
}

/// Where a list of identifiers separated by commas ends, read from `q`,
/// just after one of them: past each comma and the identifier after it; at
/// a comma with no identifier after it, just past that comma.
pub open spec fn ident_list_end(ts: Seq<Token>, q: int) -> int
    decreases ts.len() - q,
{
    if 0 <= q < ts.len() && kind_at(ts, q) == Some(TokenKind::Comma) {
        if ident_kind(kind_at(ts, q + 1)) {
            ident_list_end(ts, q + 2)
        } else {
            q + 1
        }
    } else {
        q
    }
}

/// A one-token expression at `q` that nothing after it extends: a literal
/// or a one-part name.
pub open spec fn atom_at(ts: Seq<Token>, q: int) -> bool {
    lone_literal(ts, q) || name_before(ts, q, 0)
}

/// Atoms separated by commas from `q`: an atom, and after each comma
/// another.
pub open spec fn atoms_ok(ts: Seq<Token>, q: int) -> bool
    decreases ts.len() - q,
{
    0 <= q < ts.len() && atom_at(ts, q) && if kind_at(ts, q + 1) == Some(TokenKind::Comma) {
        atoms_ok(ts, q + 2)
    } else {
        true
    }
}

/// Where the atoms from `q` end: past the last one.
pub open spec fn atoms_end(ts: Seq<Token>, q: int) -> int
    decreases ts.len() - q,
{
    if 0 <= q < ts.len() && kind_at(ts, q + 1) == Some(TokenKind::Comma) {
        atoms_end(ts, q + 2)
    } else {
        q + 1
    }
}

/// The atoms from `q` end after it.
pub proof fn lemma_atoms_end_after(ts: Seq<Token>, q: int)
    requires
        atoms_ok(ts, q),
    ensures
        q < atoms_end(ts, q) <= ts.len(),
    decreases ts.len() - q,
{
    if kind_at(ts, q + 1) == Some(TokenKind::Comma) {
        lemma_atoms_end_after(ts, q + 2);
    }
}

impl<'a> WinnowParser<'a> {
    /// The token at the position.
    pub(crate) fn current(&self) -> (res: Option<&'a Token>)
        requires
            self.wf(),
        ensures
            res == (if self.at() < self.toks().len() {
                Some(&self.toks()[self.at()])
            } else {
                None
            }),
    {
        if self.pos < self.tokens.len() {
            Some(&self.tokens[self.pos])
        } else {
            None
        }
    }

    /// The kind of the token at the position.
    pub(crate) fn kind(&self) -> (res: Option<TokenKind>)
        requires
            self.wf(),
        ensures
            res == self.kind_now(),
    {
        match self.current() {
            Some(t) => Some(t.kind),
            None => None,
        }
    }

    /// The kind of the token after the one at the position.
    pub(crate) fn peek_kind(&self) -> (res: Option<TokenKind>)
        requires
            self.wf(),
        ensures
            res == kind_at(self.toks(), self.at() + 1),
    {
        if self.pos < self.tokens.len() && self.pos + 1 < self.tokens.len() {
            Some(self.tokens[self.pos + 1].kind)
        } else {
            None
        }
    }

    /// The token before the position.
    pub(crate) fn prev_tok(&self) -> (res: Option<&'a Token>)
        requires
            self.wf(),
        ensures
            res == (if 0 < self.at() {
                Some(&self.toks()[self.at() - 1])
            } else {
                None
            }),
    {
        if self.pos > 0 {
            Some(&self.tokens[self.pos - 1])
        } else {
            None
        }
    }

    /// Move past the token at the position and hand it back.
    pub(crate) fn advance(&mut self) -> (res: Option<&'a Token>)
        requires
            old(self).wf(),
        ensures
            final(self).moved(*old(self)),
            old(self).at() < old(self).toks().len() ==> final(self).at() == old(self).at() + 1
                && res == Some(&old(self).toks()[old(self).at()]),
            old(self).at() >= old(self).toks().len() ==> final(self).at() == old(self).at()
                && res is None,
    {
        if self.pos < self.tokens.len() {
            let t = &self.tokens[self.pos];
            self.pos = self.pos + 1;
            Some(t)
        } else {
            None
        }
    }

    /// Where the token at the position starts (past the end, where the last
    /// one ends).
    pub(crate) fn pos(&self) -> (res: usize)
        requires
            self.wf(),
        ensures
            res == spec_pos(self.toks(), self.at()),
    {
        match self.current() {
            Some(t) => t.span.start,
            None => match self.prev_tok() {
                Some(t) => t.span.end,
                None => 0,
            },
        }
    }

    /// Where the token before the position ends, or `fallback`.
    pub(crate) fn end(&self, fallback: usize) -> (res: usize)
        requires
            self.wf(),
        ensures
            res == spec_prev_end(self.toks(), self.at(), fallback),
    {
        match self.prev_tok() {
            Some(t) => t.span.end,
            None => fallback,
        }
    }

    /// The span of the token at the position (empty at 0 past the end).
    pub(crate) fn span(&self) -> (res: Span)
        requires
            self.wf(),
        ensures
            self.at() < self.toks().len() ==> res == self.toks()[self.at()].span,
    {
        match self.current() {
            Some(t) => t.span,
            None => Span::new(0, 0),
        }
    }

    /// The span from `start` to the end of the token before the position.
    pub(crate) fn span_from(&self, start: usize) -> (res: Span)
        requires
            self.wf(),
        ensures
            res.start == start,
            res.end == spec_prev_end(self.toks(), self.at(), start),
    {
        Span::new(start, self.end(start))
    }

    /// Move past the token at the position if it has the kind.
    pub(crate) fn eat(&mut self, k: TokenKind) -> (res: Option<&'a Token>)
        requires
            old(self).wf(),
        ensures
            final(self).moved(*old(self)),
            old(self).kind_now() == Some(k) ==> final(self).at() == old(self).at() + 1 && res
                == Some(&old(self).toks()[old(self).at()]),
            old(self).kind_now() != Some(k) ==> final(self).at() == old(self).at() && res is None,
    {
        if self.kind() == Some(k) {
            self.advance()
        } else {
            None
        }
    }

    /// Move past the keyword if it is at the position.
    pub(crate) fn kw(&mut self, k: Keyword) -> (res: Option<&'a Token>)
        requires
            old(self).wf(),
        ensures
            final(self).moved(*old(self)),
            old(self).kind_now() == Some(TokenKind::Keyword(k)) ==> final(self).at() == old(
                self,
            ).at() + 1 && res is Some,
            old(self).kind_now() != Some(TokenKind::Keyword(k)) ==> final(self).at() == old(
                self,
            ).at() && res is None,
    {
        self.eat(TokenKind::Keyword(k))
    }

    /// Move past an operator with the semantic tag if one is at the position.
    pub(crate) fn op(&mut self, t: OpTag) -> (res: Option<&'a Token>)
        requires
            old(self).wf(),
        ensures
            final(self).moved(*old(self)),
            (old(self).kind_now() matches Some(TokenKind::Operator(o)) && o.semantic_tag == t)
                ==> final(self).at() == old(self).at() + 1 && res is Some,
            !(old(self).kind_now() matches Some(TokenKind::Operator(o)) && o.semantic_tag == t)
                ==> final(self).at() == old(self).at() && res is None,
    {
        match self.kind() {
            Some(TokenKind::Operator(o)) => if o.semantic_tag == t {
                self.advance()
            } else {
                None
            },
            _ => None,
        }
    }

    /// Identifiers separated by commas, at least one.
    pub(crate) fn list_idents(&mut self) -> (res: Option<DelimitedList<Loc<Identifier>>>)
        requires
            old(self).wf(),
        ensures
            final(self).moved(*old(self)),
            res is Some ==> final(self).at() > old(self).at(),
            res is Some <==> ident_kind(old(self).kind_now()),
            res is None ==> final(self).at() == old(self).at(),
            res matches Some(l) ==> l.items@.len() >= 1 && l.items@[0].item == old(self).toks()[old(self).at()].span,
            ident_kind(old(self).kind_now()) && kind_at(old(self).toks(), old(self).at() + 1) != Some(TokenKind::Comma)
                ==> (res matches Some(l) && l.items@.len() == 1) && final(self).at() == old(self).at() + 1,
            res is Some ==> final(self).at() == ident_list_end(old(self).toks(), old(self).at() + 1),
    {
        let ghost p0 = self.at();
        let ghost ts = self.toks();
        let s = self.pos();
        let first = self.ident()?;
        let mut items: Vec<Loc<Identifier>> = Vec::new();
        items.push(Loc::new(self.span_from(s), first));
        let mut seps: Vec<Loc<TokenKind>> = Vec::new();
        loop
            invariant_except_break
                ident_list_end(ts, p0 + 1) == ident_list_end(ts, self.at()),
            invariant
                self.moved(*old(self)),
                ts == old(self).toks(),
                self.at() > p0,
                p0 == old(self).at(),
                items@.len() >= 1,
                items@[0].item == old(self).toks()[p0].span,
                ident_kind(old(self).kind_now()) && kind_at(old(self).toks(), p0 + 1) != Some(TokenKind::Comma)
                    ==> self.at() == p0 + 1 && items@.len() == 1,
            ensures
                self.moved(*old(self)),
                self.at() > p0,
                items@.len() >= 1,
                items@[0].item == old(self).toks()[p0].span,
                ident_kind(old(self).kind_now()) && kind_at(old(self).toks(), p0 + 1) != Some(TokenKind::Comma)
                    ==> self.at() == p0 + 1 && items@.len() == 1,
                self.at() == ident_list_end(ts, p0 + 1),
            decreases self.rem(),
        {
            let ghost q = self.at();
            let sep_tok = match self.eat(TokenKind::Comma) {
                Some(t) => t,
                None => {
                    proof {
                        assert(ident_list_end(ts, q) == q);
                    }
                    break;
                },
            };
            seps.push(Loc::new(sep_tok.span, TokenKind::Comma));
            let s = self.pos();
            match self.ident() {
                Some(item) => {
                    items.push(Loc::new(self.span_from(s), item));
                    proof {
                        assert(ident_list_end(ts, q) == ident_list_end(ts, q + 2));
                    }
                },
                None => {
                    proof {
                        assert(ident_list_end(ts, q) == q + 1);
                    }
                    break;
                },
            }
        }
        Some(DelimitedList { items, seps })
    }

    /// Identifiers or keywords separated by commas, at least one.
    pub(crate) fn list_ident_or_keywords(&mut self) -> (res: Option<DelimitedList<Loc<Identifier>>>)
        requires
            old(self).wf(),
        ensures
            final(self).moved(*old(self)),
            res is Some ==> final(self).at() > old(self).at(),
            res is Some <==> word_kind(old(self).kind_now()),
            res is None ==> final(self).at() == old(self).at(),
            res matches Some(l) ==> l.items@.len() >= 1 && l.items@[0].item == old(self).toks()[old(self).at()].span,
            word_kind(old(self).kind_now()) && kind_at(old(self).toks(), old(self).at() + 1) != Some(TokenKind::Comma)
                ==> (res matches Some(l) && l.items@.len() == 1) && final(self).at() == old(self).at() + 1,
    {
        let ghost p0 = self.at();
        let s = self.pos();
        let first = self.ident_or_keyword()?;
        let mut items: Vec<Loc<Identifier>> = Vec::new();
        items.push(Loc::new(self.span_from(s), first));
        let mut seps: Vec<Loc<TokenKind>> = Vec::new();
        loop
            invariant
                self.moved(*old(self)),
                self.at() > p0,
                p0 == old(self).at(),
                items@.len() >= 1,
                items@[0].item == old(self).toks()[p0].span,
                word_kind(old(self).kind_now()) && kind_at(old(self).toks(), p0 + 1) != Some(TokenKind::Comma)
                    ==> self.at() == p0 + 1 && items@.len() == 1,
            decreases self.rem(),
        {
            let sep_tok = match self.eat(TokenKind::Comma) {
                Some(t) => t,
                None => break,
            };
            seps.push(Loc::new(sep_tok.span, TokenKind::Comma));
            let s = self.pos();
            match self.ident_or_keyword() {
                Some(item) => {
                    items.push(Loc::new(self.span_from(s), item));
                },
                None => break,
            }
        }
        Some(DelimitedList { items, seps })
    }

    /// Name parts separated by dots, at least one.
    #[verifier::rlimit(40)]
    pub(crate) fn list_name_parts(&mut self) -> (res: Option<DelimitedList<Loc<NamePart>>>)
        requires
            old(self).wf(),
        ensures
            final(self).moved(*old(self)),
            res is Some ==> final(self).at() > old(self).at(),
            res is Some <==> name_part_kind(old(self).kind_now()),
            res is None ==> final(self).at() == old(self).at(),
            name_part_kind(old(self).kind_now()) && kind_at(old(self).toks(), old(self).at() + 1) != Some(
                TokenKind::Dot,
            ) ==> (res matches Some(l) && l.items@.len() == 1) && final(self).at() == old(self).at() + 1,
            res matches Some(l) ==> l.items@[0].item == name_part_at(old(self).toks(), old(self).at())
                && l.items@[0].span == old(self).toks()[old(self).at()].span,
            res matches Some(l) ==> name_parts_at(l, old(self).toks(), old(self).at()) && final(self).at()
                == name_end(old(self).toks(), old(self).at() + 1),
    {
        let ghost p0 = self.at();
        let s = self.pos();
        let first = self.parse_name_part()?;
        let mut items: Vec<Loc<NamePart>> = Vec::new();
        items.push(Loc::new(self.span_from(s), first));
        let mut seps: Vec<Loc<TokenKind>> = Vec::new();
        loop
            invariant_except_break
                self.at() == p0 + 2 * items@.len() - 1,
                seps@.len() == items@.len() - 1,
                name_end(old(self).toks(), p0 + 1) == name_end(old(self).toks(), self.at()),
                name_tail_count(old(self).toks(), p0 + 1) == items@.len() - 1 + name_tail_count(old(self).toks(), self.at()),
            invariant
                self.moved(*old(self)),
                self.at() > p0,
                p0 == old(self).at(),
                name_part_kind(old(self).kind_now()) && kind_at(old(self).toks(), p0 + 1) != Some(TokenKind::Dot)
                    ==> self.at() == p0 + 1 && items@.len() == 1,
                items@.len() >= 1,
                items@[0].item == name_part_at(old(self).toks(), p0),
                items@[0].span == old(self).toks()[p0].span,
                forall|i: int| 0 <= i < items@.len() ==> (#[trigger] items@[i]).item == name_part_at(old(self).toks(), p0 + 2 * i)
                    && items@[i].span == old(self).toks()[p0 + 2 * i].span,
                forall|i: int| 0 <= i < seps@.len() ==> (#[trigger] seps@[i]).item == TokenKind::Dot
                    && seps@[i].span == old(self).toks()[p0 + 2 * i + 1].span,
            ensures
                self.moved(*old(self)),
                self.at() > p0,
                name_parts_at(DelimitedList { items, seps }, old(self).toks(), p0),
                self.at() == name_end(old(self).toks(), p0 + 1),
                name_part_kind(old(self).kind_now()) && kind_at(old(self).toks(), p0 + 1) != Some(TokenKind::Dot)
                    ==> self.at() == p0 + 1 && items@.len() == 1,
                items@.len() >= 1,
                items@[0].item == name_part_at(old(self).toks(), p0),
                items@[0].span == old(self).toks()[p0].span,
            decreases self.rem(),
        {
            let sep_tok = match self.eat(TokenKind::Dot) {
                Some(t) => t,
                None => break,
            };
            seps.push(Loc::new(sep_tok.span, TokenKind::Dot));
            let s = self.pos();
            match self.parse_name_part() {
                Some(item) => {
                    items.push(Loc::new(self.span_from(s), item));
                },
                None => break,
            }
        }
        Some(DelimitedList { items, seps })
    }

    /// Expressions separated by commas, at least one.
    pub(crate) fn list_exprs(&mut self) -> (res: Option<DelimitedList<Loc<Expr>>>)
        requires
            old(self).wf(),
        ensures
            final(self).moved(*old(self)),
            res is Some ==> final(self).at() > old(self).at(),
            res matches Some(l) ==> l.items@.len() >= 1,
            closer_kind(old(self).kind_now()) ==> res is None && final(self).at() == old(self).at(),
            lone_literal(old(self).toks(), old(self).at()) ==> (res matches Some(l) && l.items@[0].item
                == literal_expr_at(old(self).toks(), old(self).at())),
            lone_literal(old(self).toks(), old(self).at()) && kind_at(old(self).toks(), old(self).at() + 1) != Some(
                TokenKind::Comma,
            ) ==> (res matches Some(l) && l.items@.len() == 1) && final(self).at() == old(self).at() + 1,
            atoms_ok(old(self).toks(), old(self).at()) ==> res is Some && final(self).at() == atoms_end(
                old(self).toks(),
                old(self).at(),
            ),
        decreases old(self).rem(), 11nat,
    {
        let ghost p0 = self.at();
        let ghost ts = self.toks();
        let s = self.pos();
        let first = self.parse_expr()?;
        let mut items: Vec<Loc<Expr>> = Vec::new();
        items.push(Loc::new(self.span_from(s), first));
        let mut seps: Vec<Loc<TokenKind>> = Vec::new();
        loop
            invariant_except_break
                atoms_ok(ts, p0) ==> self.at() >= 1 && atoms_ok(ts, self.at() - 1) && atoms_end(ts, p0) == atoms_end(
                    ts,
                    self.at() - 1,
                ),
            invariant
                self.moved(*old(self)),
                ts == old(self).toks(),
                self.at() > p0,
                p0 == old(self).at(),
                items@.len() >= 1,
                lone_literal(old(self).toks(), p0) ==> items@[0].item == literal_expr_at(old(self).toks(), p0),
                lone_literal(old(self).toks(), p0) && kind_at(old(self).toks(), p0 + 1) != Some(TokenKind::Comma)
                    ==> self.at() == p0 + 1 && items@.len() == 1,
            ensures
                self.moved(*old(self)),
                self.at() > p0,
                items@.len() >= 1,
                lone_literal(old(self).toks(), p0) ==> items@[0].item == literal_expr_at(old(self).toks(), p0),
                lone_literal(old(self).toks(), p0) && kind_at(old(self).toks(), p0 + 1) != Some(TokenKind::Comma)
                    ==> self.at() == p0 + 1 && items@.len() == 1,
                atoms_ok(ts, p0) ==> self.at() == atoms_end(ts, p0),
            decreases self.rem(),
        {
            let ghost q = self.at();
            let sep_tok = match self.eat(TokenKind::Comma) {
                Some(t) => t,
                None => {
                    proof {
                        if atoms_ok(ts, p0) {
                            assert(atoms_end(ts, q - 1) == q);
                        }
                    }
                    break;
                },
            };
            seps.push(Loc::new(sep_tok.span, TokenKind::Comma));
            let s = self.pos();
            match self.parse_expr() {
                Some(item) => {
                    items.push(Loc::new(self.span_from(s), item));
                    proof {
                        if atoms_ok(ts, p0) {
                            assert(atoms_ok(ts, q + 1));
                            assert(atoms_end(ts, q - 1) == atoms_end(ts, q + 1));
                        }
                    }
                },
                None => {
                    proof {
                        if atoms_ok(ts, p0) {
                            assert(atoms_ok(ts, q + 1));
                        }
                    }
                    break;
                },
            }
        }
        Some(DelimitedList { items, seps })
    }

    /// Select items separated by commas (an item always parses).
    #[verifier::rlimit(40)]
    pub(crate) fn list_projection_items(&mut self) -> (res: DelimitedList<Loc<ProjectionItem>>)
        requires
            old(self).wf(),
        ensures
            final(self).moved(*old(self)),
            simple_item_at(old(self).toks(), old(self).at()) && clause_end_kind(kind_at(old(self).toks(), old(self).at() + 1))
                ==> res.items@.len() == 1 && simple_item_is(res.items@[0].item.expr.item, old(self).toks(), old(self).at())
                && res.items@[0].item.alias is None && final(self).at() == old(self).at() + 1,
            res.items@.len() >= 1,
            res.items@.len() == res.seps@.len() + 1,
            ({
                let ts = old(self).toks();
                let p = old(self).at();
                &&& closer_kind(kind_at(ts, p)) ==> res.items@.len() == 1 && res.items@[0].item.expr.item is Empty
                    && final(self).at() == p
                &&& lone_literal(ts, p) && closer_kind(kind_at(ts, p + 1)) ==> res.items@.len() == 1
                    && res.items@[0].item.expr.item == literal_expr_at(ts, p) && res.items@[0].item.alias is None
                    && final(self).at() == p + 1
            }),
            forall|m: nat| #[trigger] item_list(old(self).toks(), old(self).at(), m) ==> items_are(
                res,
                old(self).toks(),
                old(self).at(),
                m,
            ) && final(self).at() == item_end(old(self).toks(), item_pos(old(self).toks(), old(self).at(), (m - 1) as nat)),
        decreases old(self).rem(), 12nat,
    {
        let ghost p0 = self.at();
        let ghost ts0 = self.toks();
        let s = self.pos();
        let first = self.parse_projection_item();
        let mut items: Vec<Loc<ProjectionItem>> = Vec::new();
        items.push(Loc::new(self.span_from(s), first));
        let mut seps: Vec<Loc<TokenKind>> = Vec::new();
        proof {
            assert forall|m: nat| #[trigger] item_list(ts0, p0, m) implies items_are(
                DelimitedList { items, seps },
                ts0,
                p0,
                1,
            ) && self.at() == item_end(ts0, item_pos(ts0, p0, 0)) by {
                assert(item_ok(ts0, item_pos(ts0, p0, 0)));
            };
        }
        loop
            invariant
                self.moved(*old(self)),
                self.at() >= p0,
                p0 == old(self).at(),
                ts0 == old(self).toks(),
                forall|m: nat| #[trigger] item_list(ts0, p0, m) ==> items@.len() <= m && items_are(
                    DelimitedList { items, seps },
                    ts0,
                    p0,
                    items@.len() as nat,
                ) && self.at() == item_end(ts0, item_pos(ts0, p0, (items@.len() - 1) as nat)),
                items@.len() >= 1,
                items@.len() == seps@.len() + 1,
                simple_item_at(old(self).toks(), p0) && clause_end_kind(kind_at(old(self).toks(), p0 + 1)) ==> items@.len() == 1
                    && simple_item_is(items@[0].item.expr.item, old(self).toks(), p0) && items@[0].item.alias is None
                    && self.at() == p0 + 1,
                ({
                    let ts = old(self).toks();
                    &&& closer_kind(kind_at(ts, p0)) ==> items@.len() == 1 && items@[0].item.expr.item is Empty
                        && self.at() == p0
                    &&& lone_literal(ts, p0) && closer_kind(kind_at(ts, p0 + 1)) ==> items@.len() == 1
                        && items@[0].item.expr.item == literal_expr_at(ts, p0) && items@[0].item.alias is None
                        && self.at() == p0 + 1
                }),
            ensures
                self.moved(*old(self)),
                self.at() >= p0,
                items@.len() >= 1,
                items@.len() == seps@.len() + 1,
                simple_item_at(old(self).toks(), p0) && clause_end_kind(kind_at(old(self).toks(), p0 + 1)) ==> items@.len() == 1
                    && simple_item_is(items@[0].item.expr.item, old(self).toks(), p0) && items@[0].item.alias is None
                    && self.at() == p0 + 1,
                ({
                    let ts = old(self).toks();
                    &&& closer_kind(kind_at(ts, p0)) ==> items@.len() == 1 && items@[0].item.expr.item is Empty
                        && self.at() == p0
                    &&& lone_literal(ts, p0) && closer_kind(kind_at(ts, p0 + 1)) ==> items@.len() == 1
                        && items@[0].item.expr.item == literal_expr_at(ts, p0) && items@[0].item.alias is None
                        && self.at() == p0 + 1
                }),
                forall|m: nat| #[trigger] item_list(ts0, p0, m) ==> items@.len() == m && items_are(
                    DelimitedList { items, seps },
                    ts0,
                    p0,
                    m,
                ) && self.at() == item_end(ts0, item_pos(ts0, p0, (m - 1) as nat)),
            decreases self.rem(),
        {
            let ghost n = items@.len();
            let ghost e = self.at();
            let sep_tok = match self.eat(TokenKind::Comma) {
                Some(t) => t,
                None => {
                    proof {
                        assert forall|m: nat| #[trigger] item_list(ts0, p0, m) implies items@.len() == m by {
                            if n < m {
                                assert(kind_at(ts0, item_end(ts0, item_pos(ts0, p0, (n - 1) as nat))) == Some(TokenKind::Comma));
                            }
                        };
                    }
                    break;
                },
            };
            proof {
                assert forall|m: nat| #[trigger] item_list(ts0, p0, m) implies n < m && item_ok(ts0, item_pos(ts0, p0, n))
                    && item_pos(ts0, p0, n) == e + 1 by {
                    if n == m {
                        assert(kind_at(ts0, item_end(ts0, item_pos(ts0, p0, (m - 1) as nat))) != Some(TokenKind::Comma));
                    }
                    assert(item_ok(ts0, item_pos(ts0, p0, n)));
                };
            }
            seps.push(Loc::new(sep_tok.span, TokenKind::Comma));
            let s = self.pos();
            let item = self.parse_projection_item();
            items.push(Loc::new(self.span_from(s), item));
            proof {
                assert forall|m: nat| #[trigger] item_list(ts0, p0, m) implies items@.len() <= m && items_are(
                    DelimitedList { items, seps },
                    ts0,
                    p0,
                    items@.len() as nat,
                ) && self.at() == item_end(ts0, item_pos(ts0, p0, (items@.len() - 1) as nat)) by {
                    assert(item_ok(ts0, item_pos(ts0, p0, n)));
                };
            }
        }
        DelimitedList { items, seps }
    }

    /// Table sources separated by commas, at least one.
    #[verifier::rlimit(40)]
    pub(crate) fn list_table_refs(&mut self) -> (res: Option<DelimitedList<Loc<TableRef>>>)
        requires
            old(self).wf(),
        ensures
            final(self).moved(*old(self)),
            ident_kind(old(self).kind_now()) && from_end_kind(kind_at(old(self).toks(), old(self).at() + 1)) ==> (res matches Some(
                l,
            ) && l.items@.len() == 1 && (l.items@[0].item matches TableRef::Factor(tf) && tf.item matches TableFactor::Named(n)
                && one_part_name_at(n.item.name, old(self).toks(), old(self).at()) && n.item.alias is None)) && final(self).at()
                == old(self).at() + 1,
            res matches Some(l) ==> l.items@.len() >= 1,
            closer_kind(old(self).kind_now()) ==> res is None && final(self).at() == old(self).at(),
            ({
                let ts = old(self).toks();
                let p = old(self).at();
                ident_kind(kind_at(ts, p)) && closer_kind(kind_at(ts, p + 1)) ==> (res matches Some(l) && l.items@.len() == 1 && l.items@[0].item is Factor) && final(self).at() == p + 1
            }),
            res is Some ==> final(self).at() > old(self).at(),
            ({
                let ts = old(self).toks();
                let p = old(self).at();
                table_chain_at(ts, p) && kind_at(ts, table_chain_end(ts, p)) != Some(TokenKind::Comma) ==> (res matches Some(l)
                    && l.items@.len() == 1 && join_tree_is(l.items@[0].item, ts, p, table_join_count(ts, p)))
                    && final(self).at() == table_chain_end(ts, p)
            }),
        decreases old(self).rem(), 6nat,
    {
        let ghost p0 = self.at();
        proof {
            let ts = self.toks();
            if table_chain_at(ts, p0) {
                assert(join_chain(ts, named_factor_end(ts, p0), table_join_count(ts, p0)));
            }
        }
        let s = self.pos();
        let first = self.parse_table_ref()?;
        let mut items: Vec<Loc<TableRef>> = Vec::new();
        items.push(Loc::new(self.span_from(s), first));
        let mut seps: Vec<Loc<TokenKind>> = Vec::new();
        loop
            invariant
                self.moved(*old(self)),
                self.at() > p0,
                p0 == old(self).at(),
                items@.len() >= 1,
                ident_kind(kind_at(old(self).toks(), p0)) && from_end_kind(kind_at(old(self).toks(), p0 + 1)) ==> self.at() == p0
                    + 1 && items@.len() == 1 && (items@[0].item matches TableRef::Factor(tf) && tf.item matches TableFactor::Named(n)
                    && one_part_name_at(n.item.name, old(self).toks(), p0) && n.item.alias is None),
                ({
                    let ts = old(self).toks();
                    let p = p0;
                    ident_kind(kind_at(ts, p)) && closer_kind(kind_at(ts, p + 1)) ==> self.at() == p0 + 1 && items@.len() == 1 && items@[0].item is Factor
                }),
                table_chain_at(old(self).toks(), p0) && kind_at(old(self).toks(), table_chain_end(old(self).toks(), p0)) != Some(TokenKind::Comma)
                    ==> items@.len() == 1 && join_tree_is(items@[0].item, old(self).toks(), p0, table_join_count(old(self).toks(), p0))
                    && self.at() == table_chain_end(old(self).toks(), p0),
            decreases self.rem(),
        {
            let sep_tok = match self.eat(TokenKind::Comma) {
                Some(t) => t,
                None => break,
            };
            seps.push(Loc::new(sep_tok.span, TokenKind::Comma));
            let s = self.pos();
            match self.parse_table_ref() {
                Some(item) => {
                    items.push(Loc::new(self.span_from(s), item));
                },
                None => break,
            }
        }
        Some(DelimitedList { items, seps })
    }

    /// Grouping items separated by commas, at least one.
    pub(crate) fn list_group_by_items(&mut self) -> (res: Option<DelimitedList<Loc<GroupByItem>>>)
        requires
            old(self).wf(),
        ensures
            final(self).moved(*old(self)),
            res matches Some(l) ==> l.items@.len() >= 1,
            closer_kind(old(self).kind_now()) ==> res is None && final(self).at() == old(self).at(),
            ({
                let ts = old(self).toks();
                let p = old(self).at();
                lone_literal(ts, p) && closer_kind(kind_at(ts, p + 1)) ==> (res matches Some(l) && l.items@.len() == 1 && (l.items@[0].item matches GroupByItem::Expr(x) && x.item == literal_expr_at(ts, p))) && final(self).at() == p + 1
            }),
            res is Some ==> final(self).at() > old(self).at(),
        decreases old(self).rem(), 12nat,
    {
        let ghost p0 = self.at();
        let s = self.pos();
        let first = self.parse_group_by_item()?;
        let mut items: Vec<Loc<GroupByItem>> = Vec::new();
        items.push(Loc::new(self.span_from(s), first));
        let mut seps: Vec<Loc<TokenKind>> = Vec::new();
        loop
            invariant
                self.moved(*old(self)),
                self.at() > p0,
                p0 == old(self).at(),
                items@.len() >= 1,
                ({
                    let ts = old(self).toks();
                    let p = p0;
                    lone_literal(ts, p) && closer_kind(kind_at(ts, p + 1)) ==> self.at() == p0 + 1 && items@.len() == 1 && (items@[0].item matches GroupByItem::Expr(x) && x.item == literal_expr_at(ts, p0))
                }),
            decreases self.rem(),
        {
            let sep_tok = match self.eat(TokenKind::Comma) {
                Some(t) => t,
                None => break,
            };
            seps.push(Loc::new(sep_tok.span, TokenKind::Comma));
            let s = self.pos();
            match self.parse_group_by_item() {
                Some(item) => {
                    items.push(Loc::new(self.span_from(s), item));
                },
                None => break,
            }
        }
        Some(DelimitedList { items, seps })
    }

    /// Grouping sets separated by commas, at least one.
    pub(crate) fn list_grouping_sets(&mut self) -> (res: Option<DelimitedList<Loc<GroupingSet>>>)
        requires
            old(self).wf(),
        ensures
            final(self).moved(*old(self)),
            res matches Some(l) ==> l.items@.len() >= 1,
            closer_kind(old(self).kind_now()) ==> res is None && final(self).at() == old(self).at(),
            ({
                let ts = old(self).toks();
                let p = old(self).at();
                lone_literal(ts, p) && closer_kind(kind_at(ts, p + 1)) ==> (res matches Some(l) && l.items@.len() == 1 && (l.items@[0].item matches GroupingSet::Expr(x) && x.item == literal_expr_at(ts, p))) && final(self).at() == p + 1
            }),
            res is Some ==> final(self).at() > old(self).at(),
        decreases old(self).rem(), 12nat,
    {
        let ghost p0 = self.at();
        let s = self.pos();
        let first = self.parse_grouping_set()?;
        let mut items: Vec<Loc<GroupingSet>> = Vec::new();
        items.push(Loc::new(self.span_from(s), first));
        let mut seps: Vec<Loc<TokenKind>> = Vec::new();
        loop
            invariant
                self.moved(*old(self)),
                self.at() > p0,
                p0 == old(self).at(),
                items@.len() >= 1,
                ({
                    let ts = old(self).toks();
                    let p = p0;
                    lone_literal(ts, p) && closer_kind(kind_at(ts, p + 1)) ==> self.at() == p0 + 1 && items@.len() == 1 && (items@[0].item matches GroupingSet::Expr(x) && x.item == literal_expr_at(ts, p0))
                }),
            decreases self.rem(),
        {
            let sep_tok = match self.eat(TokenKind::Comma) {
                Some(t) => t,
                None => break,
            };
            seps.push(Loc::new(sep_tok.span, TokenKind::Comma));
            let s = self.pos();
            match self.parse_grouping_set() {
                Some(item) => {
                    items.push(Loc::new(self.span_from(s), item));
                },
                None => break,
            }
        }
        Some(DelimitedList { items, seps })
    }

    /// Sort keys separated by commas, at least one.
    #[verifier::rlimit(40)]
    pub(crate) fn list_order_by_items(&mut self) -> (res: Option<DelimitedList<Loc<OrderByItem>>>)
        requires
            old(self).wf(),
        ensures
            final(self).moved(*old(self)),
            res matches Some(l) ==> l.items@.len() >= 1,
            closer_kind(old(self).kind_now()) ==> res is None && final(self).at() == old(self).at(),
            ({
                let ts = old(self).toks();
                let p = old(self).at();
                lone_literal(ts, p) && closer_kind(kind_at(ts, p + 1)) ==> (res matches Some(l) && l.items@.len() == 1 && l.items@[0].item.expr.item == literal_expr_at(ts, p)) && final(self).at() == p + 1
            }),
            ({
                let ts = old(self).toks();
                let p = old(self).at();
                let d = p + 1 + (if direction_at(ts, p + 1) is Some { 1int } else { 0int });
                simple_item_at(ts, p) && (lone_literal_at(ts, p) ==> lone_literal(ts, p)) && (!lone_literal_at(ts, p)
                    ==> name_before(ts, p, 0)) && !kw_at(ts, d, Keyword::Nulls) && kind_at(ts, d) != Some(TokenKind::Comma)
                    ==> (res matches Some(l) && l.items@.len() == 1 && simple_item_is(l.items@[0].item.expr.item, ts, p)
                    && l.items@[0].item.direction == direction_at(ts, p + 1) && l.items@[0].item.nulls is None)
                    && final(self).at() == d
            }),
            res is Some ==> final(self).at() > old(self).at(),
        decreases old(self).rem(), 12nat,
    {
        let ghost p0 = self.at();
        let s = self.pos();
        let first = self.parse_order_by_item()?;
        let mut items: Vec<Loc<OrderByItem>> = Vec::new();
        items.push(Loc::new(self.span_from(s), first));
        let mut seps: Vec<Loc<TokenKind>> = Vec::new();
        loop
            invariant
                self.moved(*old(self)),
                self.at() > p0,
                p0 == old(self).at(),
                items@.len() >= 1,
                ({
                    let ts = old(self).toks();
                    let p = p0;
                    lone_literal(ts, p) && closer_kind(kind_at(ts, p + 1)) ==> self.at() == p0 + 1 && items@.len() == 1 && items@[0].item.expr.item == literal_expr_at(ts, p0)
                }),
                ({
                    let ts = old(self).toks();
                    let d = p0 + 1 + (if direction_at(ts, p0 + 1) is Some { 1int } else { 0int });
                    simple_item_at(ts, p0) && (lone_literal_at(ts, p0) ==> lone_literal(ts, p0)) && (!lone_literal_at(ts, p0)
                        ==> name_before(ts, p0, 0)) && !kw_at(ts, d, Keyword::Nulls) && kind_at(ts, d) != Some(TokenKind::Comma)
                        ==> items@.len() == 1 && simple_item_is(items@[0].item.expr.item, ts, p0)
                        && items@[0].item.direction == direction_at(ts, p0 + 1) && items@[0].item.nulls is None
                        && self.at() == d
                }),
            decreases self.rem(),
        {
            let sep_tok = match self.eat(TokenKind::Comma) {
                Some(t) => t,
                None => break,
            };
            seps.push(Loc::new(sep_tok.span, TokenKind::Comma));
            let s = self.pos();
            match self.parse_order_by_item() {
                Some(item) => {
                    items.push(Loc::new(self.span_from(s), item));
                },
                None => break,
            }
        }
        Some(DelimitedList { items, seps })
    }

    /// Assignments separated by commas, at least one.
    pub(crate) fn list_assignments(&mut self) -> (res: Option<DelimitedList<Loc<Assignment>>>)
        requires
            old(self).wf(),
        ensures
            final(self).moved(*old(self)),
            res matches Some(l) ==> l.items@.len() >= 1,
            res is Some ==> ident_kind(old(self).kind_now()),
            ({
                let ts = old(self).toks();
                let p = old(self).at();
                ident_kind(kind_at(ts, p)) && op_at(ts, p + 1, OpTag::Eq) && atom_at(ts, p + 2) ==> res is Some
            }),
            ({
                let ts = old(self).toks();
                let p = old(self).at();
                ident_kind(kind_at(ts, p)) && op_at(ts, p + 1, OpTag::Eq) && lone_literal(ts, p + 2) && kind_at(ts, p + 3)
                    != Some(TokenKind::Comma) ==> (res matches Some(l) && l.items@.len() == 1 && l.items@[0].item.column.item
                    == ts[p].span && l.items@[0].item.value.item == literal_expr_at(ts, p + 2)) && final(self).at() == p + 3
            }),
            res is Some ==> final(self).at() > old(self).at(),
        decreases old(self).rem(), 12nat,
    {
        let ghost p0 = self.at();
        let s = self.pos();
        let first = self.parse_assignment()?;
        let mut items: Vec<Loc<Assignment>> = Vec::new();
        items.push(Loc::new(self.span_from(s), first));
        let mut seps: Vec<Loc<TokenKind>> = Vec::new();
        loop
            invariant
                self.moved(*old(self)),
                self.at() > p0,
                p0 == old(self).at(),
                items@.len() >= 1,
                ({
                    let ts = old(self).toks();
                    let p = p0;
                    ident_kind(kind_at(ts, p)) && op_at(ts, p + 1, OpTag::Eq) && lone_literal(ts, p + 2) && kind_at(ts, p + 3)
                        != Some(TokenKind::Comma) ==> self.at() == p + 3 && items@.len() == 1 && items@[0].item.column.item
                        == ts[p].span && items@[0].item.value.item == literal_expr_at(ts, p + 2)
                }),
            decreases self.rem(),
        {
            let sep_tok = match self.eat(TokenKind::Comma) {
                Some(t) => t,
                None => break,
            };
            seps.push(Loc::new(sep_tok.span, TokenKind::Comma));
            let s = self.pos();
            match self.parse_assignment() {
                Some(item) => {
                    items.push(Loc::new(self.span_from(s), item));
                },
                None => break,
            }
        }
        Some(DelimitedList { items, seps })
    }

    /// Arguments up to a closing parenthesis: none when one follows at once,
    /// else the expressions that parse.
    pub(crate) fn args_exprs(&mut self) -> (res: DelimitedList<Loc<Expr>>)
        requires
            old(self).wf(),
        ensures
            final(self).moved(*old(self)),
            ({
                let ts = old(self).toks();
                let p = old(self).at();
                &&& kind_at(ts, p) == Some(TokenKind::RightParen) ==> res.items@.len() == 0 && final(self).at() == p
                &&& lone_literal(ts, p) ==> res.items@.len() >= 1 && res.items@[0].item == literal_expr_at(ts, p)
                &&& lone_literal(ts, p) && kind_at(ts, p + 1) == Some(TokenKind::RightParen) ==> res.items@.len() == 1
                    && final(self).at() == p + 1
                &&& atoms_ok(ts, p) ==> final(self).at() == atoms_end(ts, p)
            }),
        decreases old(self).rem(), 12nat,
    {
        if self.kind() == Some(TokenKind::RightParen) {
            DelimitedList::new()
        } else {
            match self.list_exprs() {
                Some(l) => l,
                None => DelimitedList::new(),
            }
        }
    }

    /// `(identifiers)`, where a parenthesis opens.
    pub(crate) fn paren_idents(&mut self) -> (res: Option<DelimitedList<Loc<Identifier>>>)
        requires
            old(self).wf(),
        ensures
            final(self).moved(*old(self)),
            res is Some <==> old(self).kind_now() == Some(TokenKind::LeftParen),
            res is None ==> final(self).at() == old(self).at(),
            ({
                let ts = old(self).toks();
                let p = old(self).at();
                &&& kind_at(ts, p) == Some(TokenKind::LeftParen) && kind_at(ts, p + 1) == Some(TokenKind::RightParen)
                    ==> (res matches Some(l) && l.items@.len() == 0) && final(self).at() == p + 2
                &&& kind_at(ts, p) == Some(TokenKind::LeftParen) && ident_kind(kind_at(ts, p + 1)) && kind_at(ts, p + 2) == Some(
                    TokenKind::RightParen,
                ) ==> (res matches Some(l) && l.items@.len() == 1 && l.items@[0].item == ts[p + 1].span)
                    && final(self).at() == p + 3
            }),
            res is Some ==> final(self).at() == column_list_end(old(self).toks(), old(self).at()),
    {
        self.eat(TokenKind::LeftParen)?;
        let list = if self.kind() == Some(TokenKind::RightParen) {
            DelimitedList::new()
        } else {
            match self.list_idents() {
                Some(l) => l,
                None => DelimitedList::new(),
            }
        };
        let _ = self.eat(TokenKind::RightParen);
        Some(list)
    }

    /// `(identifiers or keywords)`, where a parenthesis opens.
    pub(crate) fn paren_ident_or_keywords(&mut self) -> (res: Option<
        DelimitedList<Loc<Identifier>>,
    >)
        requires
            old(self).wf(),
        ensures
            final(self).moved(*old(self)),
            res is Some <==> old(self).kind_now() == Some(TokenKind::LeftParen),
            res is None ==> final(self).at() == old(self).at(),
            ({
                let ts = old(self).toks();
                let p = old(self).at();
                &&& kind_at(ts, p) == Some(TokenKind::LeftParen) && kind_at(ts, p + 1) == Some(TokenKind::RightParen)
                    ==> (res matches Some(l) && l.items@.len() == 0) && final(self).at() == p + 2
                &&& kind_at(ts, p) == Some(TokenKind::LeftParen) && word_kind(kind_at(ts, p + 1)) && kind_at(ts, p + 2) == Some(
                    TokenKind::RightParen,
                ) ==> (res matches Some(l) && l.items@.len() == 1 && l.items@[0].item == ts[p + 1].span)
                    && final(self).at() == p + 3
            }),
    {
        self.eat(TokenKind::LeftParen)?;
        let list = if self.kind() == Some(TokenKind::RightParen) {
            DelimitedList::new()
        } else {
            match self.list_ident_or_keywords() {
                Some(l) => l,
                None => DelimitedList::new(),
            }
        };
        let _ = self.eat(TokenKind::RightParen);
        Some(list)
    }
}

} // verus!
