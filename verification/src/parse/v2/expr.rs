//! Expressions of the second parser: binding-power climbing over infix
//! operators, with the special forms read by their own rules and postfix
//! subscripts and `AT TIME ZONE`.
use vstd::prelude::*;

use crate::ast::{
    AtTimeZone, Between, Binary, Boolean, Case, Cast, DataType, DelimitedList, Expr, ExprList,
    FunctionCall, In, IsNull, Like, Literal, Over, Paren, QualifiedName, Quantified, Quantifier,
    Row, Similar, Subscript, TypeParam, TypedLiteralKind, Unary, WhenClause, WindowRef,
};
use crate::lex::tape::kind_at;
use crate::lex::{Assoc, Fixity, Keyword, OpTag, TokenKind};
use crate::parse::number::parse_i64;
use crate::parse::{is_literal_kind, literal_token};
use crate::parse::expr::{is_name_at, kw_at, op_at, single_name_at, single_when_case};
use crate::parse::parser::{closer_kind, ident_kind, literal_expr_at};
use crate::parse::v2::{name_part_kind, WinnowParser};
use crate::span::{Loc, Span};

verus! {

/// The infix operator at `p`, where there is one: its tag, its binding
/// power, and the binding power its right operand is read with. `NOT` counts
/// as infix just before `BETWEEN`, `LIKE`, `ILIKE`, `SIMILAR` or `IN`, with
/// that operator's binding power.
pub open spec fn spec_infix_op(ts: Seq<crate::lex::Token>, p: int) -> Option<(OpTag, u8, u8)> {
    match kind_at(ts, p) {
        Some(TokenKind::Operator(op)) => if op.fixity == Fixity::Infix {
            let r = match op.assoc {
                Assoc::Right => op.precedence,
                _ => if op.precedence < 255 {
                    (op.precedence + 1) as u8
                } else {
                    255u8
                },
            };
            Some((op.semantic_tag, op.precedence, r))
        } else if op.semantic_tag == OpTag::Not {
            match kind_at(ts, p + 1) {
                Some(TokenKind::Operator(next)) => if next.semantic_tag == OpTag::Between
                    || next.semantic_tag == OpTag::Like || next.semantic_tag == OpTag::Ilike
                    || next.semantic_tag == OpTag::Similar || next.semantic_tag == OpTag::In {
                    Some(
                        (
                            OpTag::Not,
                            next.precedence,
                            if next.precedence < 255 {
                                (next.precedence + 1) as u8
                            } else {
                                255u8
                            },
                        ),
                    )
                } else {
                    None
                },
                _ => None,
            }
        } else {
            None
        },
        _ => None,
    }
}

/// A literal token with nothing after it that would extend the expression:
/// no subscript, no `AT TIME ZONE` and no infix operator.
pub open spec fn lone_literal(ts: Seq<crate::lex::Token>, p: int) -> bool {
    &&& literal_token(ts, p) is Some
    &&& kind_at(ts, p + 1) != Some(TokenKind::LeftBracket)
    &&& kind_at(ts, p + 1) != Some(TokenKind::Keyword(Keyword::At))
    &&& spec_infix_op(ts, p + 1) is None
}

/// Whether an operator of binding power `pr` continues an operand read with
/// binding power `bp`, rather than ending it.
pub open spec fn continues_side(pr: u8, bp: u8) -> bool {
    pr >= bp
}

/// The binding power an infix operator's right side is read with settles how
/// a run of operators groups. A left-associative or non-associative operator
/// reads it so that exactly the operators binding more tightly than itself
/// continue it: the next operator of its own precedence ends the right side,
/// and `x op y op z` groups as `(x op y) op z`. A right-associative operator
/// reads it so that operators of its own precedence continue it too, and
/// `x op y op z` groups as `x op (y op z)`.
pub proof fn law_infix_binding_follows_associativity(ts: Seq<crate::lex::Token>, p: int)
    requires
        kind_at(ts, p) matches Some(TokenKind::Operator(op)) && op.fixity == Fixity::Infix && op.precedence < 255,
    ensures
        spec_infix_op(ts, p) matches Some(r) && {
            let op = ts[p].kind->Operator_0;
            &&& r.0 == op.semantic_tag
            &&& r.1 == op.precedence
            &&& op.assoc is Right ==> forall|pr: u8| #[trigger] continues_side(pr, r.2) <==> pr >= op.precedence
            &&& !(op.assoc is Right) ==> forall|pr: u8| #[trigger] continues_side(pr, r.2) <==> pr > op.precedence
        },
{
}

/// `NOT` just before `BETWEEN`, `LIKE`, `ILIKE`, `SIMILAR` or `IN` reads as
/// one infix operator tagged `NOT`, binding as that operator does and
/// grouping to the left: its right side goes on exactly through operators
/// binding more tightly than that operator. A prefix operator before anything
/// else is no infix operator.
pub proof fn law_negated_predicate_binds_as_its_operator(ts: Seq<crate::lex::Token>, p: int)
    requires
        kind_at(ts, p) matches Some(TokenKind::Operator(op)) && op.fixity != Fixity::Infix,
    ensures
        ({
            let op = ts[p].kind->Operator_0;
            match kind_at(ts, p + 1) {
                Some(TokenKind::Operator(next)) => if op.semantic_tag == OpTag::Not && (next.semantic_tag
                    == OpTag::Between || next.semantic_tag == OpTag::Like || next.semantic_tag == OpTag::Ilike
                    || next.semantic_tag == OpTag::Similar || next.semantic_tag == OpTag::In) && next.precedence
                    < 255 {
                    spec_infix_op(ts, p) matches Some(r) && r.0 == OpTag::Not && r.1 == next.precedence && forall|
                        pr: u8,
                    | #[trigger] continues_side(pr, r.2) <==> pr > next.precedence
                } else if op.semantic_tag == OpTag::Not && (next.semantic_tag == OpTag::Between || next.semantic_tag
                    == OpTag::Like || next.semantic_tag == OpTag::Ilike || next.semantic_tag == OpTag::Similar
                    || next.semantic_tag == OpTag::In) {
                    spec_infix_op(ts, p) is Some
                } else {
                    spec_infix_op(ts, p) is None
                },
                _ => spec_infix_op(ts, p) is None,
            }
        }),
{
}

/// A literal token that, read with binding power `min_bp`, is the whole
/// expression: no subscript or `AT TIME ZONE` follows, and any infix
/// operator after it binds less tightly than `min_bp`.
pub open spec fn literal_before(ts: Seq<crate::lex::Token>, p: int, min_bp: u8) -> bool {
    &&& literal_token(ts, p) is Some
    &&& kind_at(ts, p + 1) != Some(TokenKind::LeftBracket)
    &&& kind_at(ts, p + 1) != Some(TokenKind::Keyword(Keyword::At))
    &&& (spec_infix_op(ts, p + 1) matches Some(t) ==> t.1 < min_bp)
}

/// A one-part name that, read with binding power `min_bp`, is the whole
/// expression: no subscript or `AT TIME ZONE` follows, and any infix
/// operator after it binds less tightly than `min_bp`.
pub open spec fn name_before(ts: Seq<crate::lex::Token>, p: int, min_bp: u8) -> bool {
    &&& single_name_at(ts, p)
    &&& kind_at(ts, p + 1) != Some(TokenKind::LeftBracket)
    &&& kind_at(ts, p + 1) != Some(TokenKind::Keyword(Keyword::At))
    &&& (spec_infix_op(ts, p + 1) matches Some(t) ==> t.1 < min_bp)
}

impl<'a> WinnowParser<'a> {
    /// An expression.
    pub fn parse_expr(&mut self) -> (res: Option<Expr>)
        requires
            old(self).wf(),
        ensures
            final(self).moved(*old(self)),
            res is Some ==> final(self).at() > old(self).at(),
            ({
                let ts = old(self).toks();
                let p = old(self).at();
                &&& lone_literal(ts, p) ==> (res matches Some(Expr::Literal(x)) && x.span == ts[p].span
                    && x.item == literal_token(ts, p)->0) && final(self).at() == p + 1
                &&& closer_kind(kind_at(ts, p)) ==> res is None && final(self).at() == p
                &&& name_before(ts, p, 0) ==> (res matches Some(e) && is_name_at(e, ts, p)) && final(self).at() == p + 1
            }),
        decreases old(self).rem(), 10nat,
    {
        self.parse_expr_bp(0)
    }

    /// An expression whose infix operators all bind at least `min_bp`.
    fn parse_expr_bp(&mut self, min_bp: u8) -> (res: Option<Expr>)
        requires
            old(self).wf(),
        ensures
            final(self).moved(*old(self)),
            res is Some ==> final(self).at() > old(self).at(),
            ({
                let ts = old(self).toks();
                let p = old(self).at();
                &&& literal_before(ts, p, min_bp) ==> (res matches Some(Expr::Literal(x)) && x.span
                    == ts[p].span && x.item == literal_token(ts, p)->0) && final(self).at() == p + 1
                &&& closer_kind(kind_at(ts, p)) ==> res is None && final(self).at() == p
                &&& name_before(ts, p, min_bp) ==> (res matches Some(e) && is_name_at(e, ts, p)) && final(self).at() == p + 1
            }),
        decreases old(self).rem(), 9nat,
    {
        let ghost p0 = self.at();
        let start = self.pos();
        let s = self.pos();
        let e = self.parse_prefix_expr()?;
        let mut lhs = Loc::new(self.span_from(s), e);
        loop
            invariant
                self.moved(*old(self)),
                self.at() > p0,
                p0 == old(self).at(),
                !closer_kind(kind_at(old(self).toks(), p0)),
                name_before(old(self).toks(), p0, min_bp) ==> self.at() == p0 + 1 && is_name_at(lhs.item, old(self).toks(), p0),
                literal_before(old(self).toks(), p0, min_bp) ==> self.at() == p0 + 1 && (lhs.item matches Expr::Literal(x)
                    && x.span == old(self).toks()[p0].span && x.item == literal_token(old(self).toks(), p0)->0),
            decreases self.rem(),
        {
            let (tag, prec, r_bp) = match self.get_infix_op() {
                Some(t) => t,
                None => break,
            };
            if prec < min_bp {
                break;
            }
            lhs = self.parse_infix(lhs, start, tag, r_bp)?;
        }
        Some(lhs.item)
    }

    /// The infix operator at the position, where there is one.
    fn get_infix_op(&self) -> (res: Option<(OpTag, u8, u8)>)
        requires
            self.wf(),
        ensures
            res == spec_infix_op(self.toks(), self.at()),
            res is Some ==> self.at() < self.toks().len(),
    {
        let op = match self.kind() {
            Some(TokenKind::Operator(op)) => op,
            _ => return None,
        };
        if op.fixity == Fixity::Infix {
            let r_bp = match op.assoc {
                Assoc::Right => op.precedence,
                _ => if op.precedence < 255 {
                    op.precedence + 1
                } else {
                    255
                },
            };
            return Some((op.semantic_tag, op.precedence, r_bp));
        }
        if op.semantic_tag == OpTag::Not {
            if let Some(TokenKind::Operator(next)) = self.peek_kind() {
                let t = next.semantic_tag;
                if t == OpTag::Between || t == OpTag::Like || t == OpTag::Ilike || t
                    == OpTag::Similar || t == OpTag::In {
                    let r = if next.precedence < 255 {
                        next.precedence + 1
                    } else {
                        255
                    };
                    return Some((OpTag::Not, next.precedence, r));
                }
            }
        }
        None
    }

    /// Past the operator at the position: its right-hand side, with `left`.
    fn parse_infix(&mut self, left: Loc<Expr>, start: usize, tag: OpTag, r_bp: u8) -> (res:
        Option<Loc<Expr>>)
        requires
            old(self).wf(),
            old(self).at() < old(self).toks().len(),
        ensures
            final(self).moved(*old(self)),
            final(self).at() > old(self).at(),
            res matches Some(x) ==> match tag {
                OpTag::Like => x.item matches Expr::Like(l) && !l.item.not,
                OpTag::Ilike => x.item matches Expr::ILike(l) && !l.item.not,
                OpTag::Similar => x.item is Similar,
                OpTag::In => x.item matches Expr::In(i) && !i.item.not,
                OpTag::TypeCast => x.item is Cast,
                _ => true,
            },
            !(tag == OpTag::Not || tag == OpTag::Between || tag == OpTag::Like || tag == OpTag::Ilike || tag
                == OpTag::Similar || tag == OpTag::In || tag == OpTag::Is || tag == OpTag::TypeCast) ==> (
            res matches Some(x) && (x.item matches Expr::Binary(b) && (b.item.op matches Some(o) && o.item
                == tag))),
        decreases old(self).rem(), 6nat,
    {
        let _ = self.advance();
        if tag == OpTag::Not {
            self.parse_negated_predicate(left, start)
        } else if tag == OpTag::Between {
            self.parse_between(left, start, false)
        } else if tag == OpTag::Like || tag == OpTag::Ilike {
            self.parse_like(left, start, tag, false)
        } else if tag == OpTag::Similar {
            self.parse_similar(left, start)
        } else if tag == OpTag::In {
            self.parse_in(left, start, false)
        } else if tag == OpTag::Is {
            self.parse_is(left, start)
        } else if tag == OpTag::TypeCast {
            self.parse_type_cast(left, start)
        } else {
            let s = self.pos();
            let right = match self.parse_expr_bp(r_bp) {
                Some(e) => Some(Loc::new(self.span_from(s), e)),
                None => None,
            };
            let end = match &right {
                Some(r) => r.span.end,
                None => self.end(start),
            };
            let left_start = left.span.start;
            let right = match right {
                Some(r) => Some(Box::new(r)),
                None => None,
            };
            Some(
                Loc::new(
                    Span::new(start, end),
                    Expr::Binary(
                        Loc::new(
                            Span::new(left_start, end),
                            Binary {
                                left: Box::new(left),
                                op: Some(Loc::new(Span::new(start, start), tag)),
                                right,
                            },
                        ),
                    ),
                ),
            )
        }
    }

    /// Past `NOT`: `BETWEEN`, `LIKE`, `ILIKE`, `SIMILAR` or `IN` negated; any
    /// other right-hand side is a `NOT` of what follows.
    fn parse_negated_predicate(&mut self, left: Loc<Expr>, start: usize) -> (res: Option<
        Loc<Expr>,
    >)
        requires
            old(self).wf(),
        ensures
            final(self).moved(*old(self)),
            ({
                let ts = old(self).toks();
                let p = old(self).at();
                &&& op_at(ts, p, OpTag::Between) ==> (res matches Some(x) && (x.item matches Expr::Between(b) ==> b.item.not))
                &&& op_at(ts, p, OpTag::Like) ==> (res matches Some(x) ==> x.item matches Expr::Like(l) && l.item.not)
                &&& op_at(ts, p, OpTag::Ilike) ==> (res matches Some(x) ==> x.item matches Expr::ILike(l) && l.item.not)
                &&& op_at(ts, p, OpTag::Similar) ==> (res matches Some(x) ==> x.item is Similar)
                &&& op_at(ts, p, OpTag::In) ==> (res is Some <==> kind_at(ts, p + 1) == Some(TokenKind::LeftParen)) && (
                res matches Some(x) ==> x.item matches Expr::In(i) && i.item.not)
                &&& literal_before(ts, p, 3) ==> (res matches Some(x) && x.item matches Expr::Unary(u) && u.item.op_tok.item
                    == OpTag::Not && u.item.expr.item == literal_expr_at(ts, p))
                &&& closer_kind(kind_at(ts, p)) ==> res is None
            }),
        decreases old(self).rem(), 11nat,
    {
        let kind = self.current()?.kind;
        if let TokenKind::Operator(op) = kind {
            let t = op.semantic_tag;
            if t == OpTag::Between {
                let _ = self.advance();
                return self.parse_between(left, start, true);
            } else if t == OpTag::Like || t == OpTag::Ilike {
                let _ = self.advance();
                return self.parse_like(left, start, t, true);
            } else if t == OpTag::Similar {
                let _ = self.advance();
                return self.parse_similar(left, start);
            } else if t == OpTag::In {
                let _ = self.advance();
                return self.parse_in(left, start, true);
            }
        }
        let s = self.pos();
        let e = self.parse_expr_bp(3)?;
        let expr = Box::new(Loc::new(self.span_from(s), e));
        let end = expr.span.end;
        Some(
            Loc::new(
                Span::new(start, end),
                Expr::Unary(
                    Loc::new(
                        Span::new(left.span.start, end),
                        Unary { op_tok: Loc::new(Span::new(start, start), OpTag::Not), expr },
                    ),
                ),
            ),
        )
    }

    /// Past `BETWEEN`: `low AND high`; with the high bound missing, a binary
    /// node on the low bound; with both missing, one with no right operand.
    fn parse_between(&mut self, left: Loc<Expr>, start: usize, not: bool) -> (res: Option<
        Loc<Expr>,
    >)
        requires
            old(self).wf(),
        ensures
            final(self).moved(*old(self)),
            ({
                let ts = old(self).toks();
                let p = old(self).at();
                &&& res matches Some(x) ==> (x.item matches Expr::Between(b) && b.item.not == not && *b.item.expr == left)
                    || (x.item matches Expr::Binary(bn) && (bn.item.op matches Some(o) && o.item == OpTag::Between)
                    && *bn.item.left == left)
                &&& closer_kind(kind_at(ts, p)) ==> (res matches Some(x) && x.item matches Expr::Binary(bn)
                    && bn.item.right is None) && final(self).at() == p
                &&& literal_before(ts, p, 10) && !op_at(ts, p + 1, OpTag::And) ==> (res matches Some(x) && x.item matches Expr::Binary(
                    bn,
                ) && (bn.item.right matches Some(r) && r.item == literal_expr_at(ts, p)))
                &&& literal_before(ts, p, 10) && op_at(ts, p + 1, OpTag::And) && literal_before(ts, p + 2, 10) ==> (
                res matches Some(x) && x.item matches Expr::Between(b) && b.item.low.item == literal_expr_at(ts, p)
                    && b.item.high.item == literal_expr_at(ts, p + 2)) && final(self).at() == p + 3
            }),
            res is Some,
        decreases old(self).rem(), 11nat,
    {
        let s = self.pos();
        let low = match self.parse_expr_bp(10) {
            Some(e) => Some(Loc::new(self.span_from(s), e)),
            None => None,
        };
        if let Some(low) = low {
            if self.op(OpTag::And).is_some() {
                let s = self.pos();
                if let Some(h) = self.parse_expr_bp(10) {
                    let high = Loc::new(self.span_from(s), h);
                    let span = Span::new(start, high.span.end);
                    return Some(
                        Loc::new(
                            span,
                            Expr::Between(
                                Loc::new(
                                    span,
                                    Between {
                                        expr: Box::new(left),
                                        low: Box::new(low),
                                        high: Box::new(high),
                                        not,
                                    },
                                ),
                            ),
                        ),
                    );
                }
            }
            let outer = Span::new(start, low.span.end);
            let inner = left.span.join(low.span);
            return Some(
                Loc::new(
                    outer,
                    Expr::Binary(
                        Loc::new(
                            inner,
                            Binary {
                                left: Box::new(left),
                                op: Some(Loc::new(Span::new(start, start), OpTag::Between)),
                                right: Some(Box::new(low)),
                            },
                        ),
                    ),
                ),
            );
        }
        let left_end = left.span.end;
        let left_start = left.span.start;
        let end = self.end(left_end);
        Some(
            Loc::new(
                Span::new(start, end),
                Expr::Binary(
                    Loc::new(
                        Span::new(left_start, end),
                        Binary {
                            left: Box::new(left),
                            op: Some(Loc::new(Span::new(left_end, left_end), OpTag::Between)),
                            right: None,
                        },
                    ),
                ),
            ),
        )
    }

    /// Past `LIKE` or `ILIKE`: the pattern.
    fn parse_like(&mut self, left: Loc<Expr>, start: usize, tag: OpTag, not: bool) -> (res: Option<
        Loc<Expr>,
    >)
        requires
            old(self).wf(),
        ensures
            final(self).moved(*old(self)),
            ({
                let ts = old(self).toks();
                let p = old(self).at();
                &&& closer_kind(kind_at(ts, p)) ==> res is None && final(self).at() == p
                &&& literal_before(ts, p, 10) ==> (res matches Some(x) && (if tag == OpTag::Like {
                    x.item matches Expr::Like(l) && l.item.pattern.item == literal_expr_at(ts, p)
                } else {
                    x.item matches Expr::ILike(l) && l.item.pattern.item == literal_expr_at(ts, p)
                })) && final(self).at() == p + 1
            }),
            res matches Some(x) ==> (if tag == OpTag::Like {
                x.item matches Expr::Like(l) && l.item.not == not
            } else {
                x.item matches Expr::ILike(l) && l.item.not == not
            }),
        decreases old(self).rem(), 11nat,
    {
        let s = self.pos();
        let p = self.parse_expr_bp(10)?;
        let pattern = Loc::new(self.span_from(s), p);
        let span = Span::new(start, pattern.span.end);
        let like = Like { expr: Box::new(left), pattern: Box::new(pattern), not };
        let e = if tag == OpTag::Like {
            Expr::Like(Loc::new(span, like))
        } else {
            Expr::ILike(Loc::new(span, like))
        };
        Some(Loc::new(span, e))
    }

    /// Past `SIMILAR`: `TO pattern [ESCAPE escape]`.
    #[verifier::rlimit(40)]
    fn parse_similar(&mut self, left: Loc<Expr>, start: usize) -> (res: Option<Loc<Expr>>)
        requires
            old(self).wf(),
        ensures
            final(self).moved(*old(self)),
            ({
                let ts = old(self).toks();
                let p = old(self).at();
                &&& !kw_at(ts, p, Keyword::To) ==> res is None && final(self).at() == p
                &&& kw_at(ts, p, Keyword::To) && literal_before(ts, p + 1, 10) && !kw_at(ts, p + 2, Keyword::Escape) ==> (
                res matches Some(x) && x.item matches Expr::Similar(sm) && sm.item.pattern.item == literal_expr_at(ts, p + 1)
                    && sm.item.escape is None) && final(self).at() == p + 2
                &&& kw_at(ts, p, Keyword::To) && literal_before(ts, p + 1, 10) && kw_at(ts, p + 2, Keyword::Escape)
                    && literal_before(ts, p + 3, 10) ==> (res matches Some(x) && x.item matches Expr::Similar(sm) && (
                sm.item.escape matches Some(e) && e.item == literal_expr_at(ts, p + 3))) && final(self).at() == p + 4
            }),
            res matches Some(x) ==> x.item is Similar,
        decreases old(self).rem(), 11nat,
    {
        self.kw(Keyword::To)?;
        let s = self.pos();
        let p = self.parse_expr_bp(10)?;
        let pattern = Loc::new(self.span_from(s), p);
        let escape = if self.kw(Keyword::Escape).is_some() {
            let s = self.pos();
            let e = self.parse_expr_bp(10)?;
            Some(Box::new(Loc::new(self.span_from(s), e)))
        } else {
            None
        };
        let end = match &escape {
            Some(e) => e.span.end,
            None => pattern.span.end,
        };
        let span = Span::new(start, end);
        Some(
            Loc::new(
                span,
                Expr::Similar(
                    Loc::new(
                        span,
                        Similar { expr: Box::new(left), pattern: Box::new(pattern), escape },
                    ),
                ),
            ),
        )
    }

    /// Past `IN`: `(subquery)` or `(exprs)`.
    fn parse_in(&mut self, left: Loc<Expr>, start: usize, not: bool) -> (res: Option<Loc<Expr>>)
        requires
            old(self).wf(),
        ensures
            final(self).moved(*old(self)),
            res matches Some(x) ==> (x.item matches Expr::In(i) && i.item.not == not),
            res is Some <==> old(self).kind_now() == Some(TokenKind::LeftParen),
        decreases old(self).rem(), 11nat,
    {
        self.eat(TokenKind::LeftParen)?;
        let k = self.kind();
        let list = if k == Some(TokenKind::Keyword(Keyword::Select)) || k == Some(
            TokenKind::Keyword(Keyword::With),
        ) {
            let s = self.pos();
            let q = self.parse_query();
            ExprList::Subquery(Box::new(Loc::new(self.span_from(s), q)))
        } else {
            ExprList::Exprs(self.args_exprs().items)
        };
        let _ = self.eat(TokenKind::RightParen);
        let span = self.span_from(start);
        Some(Loc::new(span, Expr::In(Loc::new(span, In { expr: Box::new(left), list, not }))))
    }

    /// Past `IS`: `[NOT] NULL`.
    fn parse_is(&mut self, left: Loc<Expr>, start: usize) -> (res: Option<Loc<Expr>>)
        requires
            old(self).wf(),
        ensures
            final(self).moved(*old(self)),
            ({
                let ts = old(self).toks();
                let p = old(self).at();
                &&& res is Some <==> kw_at(ts, p, Keyword::Null) || op_at(ts, p, OpTag::Not) && kw_at(ts, p + 1, Keyword::Null)
                &&& res matches Some(x) ==> x.item matches Expr::IsNull(i) && i.item.not == op_at(ts, p, OpTag::Not)
                    && *i.item.expr == left
                &&& res is Some ==> final(self).at() == (if op_at(ts, p, OpTag::Not) { p + 2 } else { p + 1 })
            }),
    {
        let not = self.op(OpTag::Not).is_some();
        self.kw(Keyword::Null)?;
        let span = self.span_from(start);
        Some(Loc::new(span, Expr::IsNull(Loc::new(span, IsNull { expr: Box::new(left), not }))))
    }

    /// Past `::`: the type.
    fn parse_type_cast(&mut self, left: Loc<Expr>, start: usize) -> (res: Option<Loc<Expr>>)
        requires
            old(self).wf(),
        ensures
            final(self).moved(*old(self)),
            ({
                let ts = old(self).toks();
                let p = old(self).at();
                &&& res is Some ==> name_part_kind(kind_at(ts, p))
                &&& name_part_kind(kind_at(ts, p)) && kind_at(ts, p + 1) != Some(TokenKind::Dot) && kind_at(ts, p + 1)
                    != Some(TokenKind::LeftParen) ==> (res matches Some(x) && x.item matches Expr::Cast(c)
                    && *c.item.expr == left && c.item.data_type.item is Named) && final(self).at() == p + 1
            }),
            res matches Some(x) ==> x.item is Cast,
    {
        let s = self.pos();
        let dt = self.parse_data_type()?;
        let data_type = Loc::new(self.span_from(s), dt);
        let span = self.span_from(start);
        Some(Loc::new(span, Expr::Cast(Loc::new(span, Cast { expr: Box::new(left), data_type }))))
    }

    /// A prefix operator and its operand (`EXISTS (query)`, `NOT`, unary
    /// `+`/`-`), or a primary expression.
    fn parse_prefix_expr(&mut self) -> (res: Option<Expr>)
        requires
            old(self).wf(),
        ensures
            final(self).moved(*old(self)),
            res is Some ==> final(self).at() > old(self).at(),
            ({
                let ts = old(self).toks();
                let p = old(self).at();
                literal_token(ts, p) is Some && kind_at(ts, p + 1) != Some(TokenKind::LeftBracket)
                    && kind_at(ts, p + 1) != Some(TokenKind::Keyword(Keyword::At)) ==> (res matches Some(
                    Expr::Literal(x),
                ) && x.span == ts[p].span && x.item == literal_token(ts, p)->0 && final(self).at() == p + 1)
            }),
            closer_kind(old(self).kind_now()) ==> res is None && final(self).at() == old(self).at(),
            single_name_at(old(self).toks(), old(self).at()) && kind_at(old(self).toks(), old(self).at() + 1) != Some(
                TokenKind::LeftBracket,
            ) && kind_at(old(self).toks(), old(self).at() + 1) != Some(TokenKind::Keyword(Keyword::At)) ==> (res matches Some(
                e,
            ) && is_name_at(e, old(self).toks(), old(self).at())) && final(self).at() == old(self).at() + 1,
        decreases old(self).rem(), 8nat,
    {
        if let Some(TokenKind::Operator(op)) = self.kind() {
            if op.fixity == Fixity::Prefix {
                if op.semantic_tag == OpTag::Exists {
                    let _ = self.advance();
                    self.eat(TokenKind::LeftParen)?;
                    let s = self.pos();
                    let q = self.parse_query();
                    let query = Box::new(Loc::new(self.span_from(s), q));
                    let _ = self.eat(TokenKind::RightParen);
                    return Some(Expr::Exists(query));
                }
                let tok = self.advance()?;
                let s = self.pos();
                let e = self.parse_expr_bp(op.precedence)?;
                let expr = Box::new(Loc::new(self.span_from(s), e));
                let span = tok.span.join(expr.span);
                return Some(
                    Expr::Unary(
                        Loc::new(span, Unary { op_tok: Loc::new(tok.span, op.semantic_tag), expr }),
                    ),
                );
            }
            if op.semantic_tag == OpTag::Add || op.semantic_tag == OpTag::Sub {
                let tok = self.advance()?;
                let tag = if op.semantic_tag == OpTag::Add {
                    OpTag::UnaryPlus
                } else {
                    OpTag::UnaryMinus
                };
                let s = self.pos();
                let e = self.parse_expr_bp(8)?;
                let expr = Box::new(Loc::new(self.span_from(s), e));
                let span = tok.span.join(expr.span);
                return Some(Expr::Unary(Loc::new(span, Unary { op_tok: Loc::new(tok.span, tag), expr })));
            }
        }
        self.parse_primary_expr()
    }

    /// A parenthesized expression or subquery, `CAST`, `CASE`, `ROW`,
    /// `ARRAY`, a quantified expression, a literal, a name or a call, each
    /// with its postfix operations.
    fn parse_primary_expr(&mut self) -> (res: Option<Expr>)
        requires
            old(self).wf(),
        ensures
            final(self).moved(*old(self)),
            res is Some ==> final(self).at() > old(self).at(),
            ({
                let ts = old(self).toks();
                let p = old(self).at();
                literal_token(ts, p) is Some && kind_at(ts, p + 1) != Some(TokenKind::LeftBracket)
                    && kind_at(ts, p + 1) != Some(TokenKind::Keyword(Keyword::At)) ==> (res matches Some(
                    Expr::Literal(x),
                ) && x.span == ts[p].span && x.item == literal_token(ts, p)->0 && final(self).at() == p + 1)
            }),
            closer_kind(old(self).kind_now()) ==> res is None && final(self).at() == old(self).at(),
            single_name_at(old(self).toks(), old(self).at()) && kind_at(old(self).toks(), old(self).at() + 1) != Some(
                TokenKind::LeftBracket,
            ) && kind_at(old(self).toks(), old(self).at() + 1) != Some(TokenKind::Keyword(Keyword::At)) ==> (res matches Some(
                e,
            ) && is_name_at(e, old(self).toks(), old(self).at())) && final(self).at() == old(self).at() + 1,
        decreases old(self).rem(), 7nat,
    {
        let start = self.pos();
        if let Some(open) = self.eat(TokenKind::LeftParen) {
            let open_span = open.span;
            let k = self.kind();
            if k == Some(TokenKind::Keyword(Keyword::Select)) || k == Some(
                TokenKind::Keyword(Keyword::With),
            ) {
                let s = self.pos();
                let q = self.parse_query();
                let query = Loc::new(self.span_from(s), q);
                let _ = self.eat(TokenKind::RightParen);
                return self.parse_postfix(start, Expr::Subquery(Box::new(query)));
            }
            let s = self.pos();
            let e = self.parse_expr()?;
            let expr = Box::new(Loc::new(self.span_from(s), e));
            let close = match self.eat(TokenKind::RightParen) {
                Some(t) => Some(t.span),
                None => None,
            };
            let end = match close {
                Some(c) => c.end,
                None => expr.span.end,
            };
            let paren = Expr::Paren(
                Loc::new(Span::new(start, end), Paren { open: open_span, expr, close }),
            );
            return self.parse_postfix(start, paren);
        }
        if self.kw(Keyword::Cast).is_some() {
            let e = self.parse_cast(start)?;
            return self.parse_postfix(start, e);
        }
        if self.kw(Keyword::Case).is_some() {
            let e = self.parse_case(start)?;
            return self.parse_postfix(start, e);
        }
        if self.kw(Keyword::Row).is_some() {
            self.eat(TokenKind::LeftParen)?;
            let exprs = self.args_exprs();
            let _ = self.eat(TokenKind::RightParen);
            let row = Expr::Row(Loc::new(self.span_from(start), Row { exprs }));
            return self.parse_postfix(start, row);
        }
        if self.kw(Keyword::Array).is_some() {
            self.eat(TokenKind::LeftBracket)?;
            let items = self.args_exprs();
            let _ = self.eat(TokenKind::RightBracket);
            return self.parse_postfix(start, Expr::Array(items));
        }
        if let Some(q) = self.parse_quantified(start) {
            return self.parse_postfix(start, q);
        }
        if let Some(lit) = self.parse_typed_literal(start) {
            return self.parse_postfix(start, Expr::Literal(lit));
        }
        if let Some(lit) = self.parse_literal() {
            return self.parse_postfix(start, Expr::Literal(lit));
        }
        let s = self.pos();
        let qn = self.parse_qualified_name()?;
        let name = Loc::new(self.span_from(s), qn);
        if self.eat(TokenKind::LeftParen).is_some() {
            return self.parse_func_call(name, start);
        }
        self.parse_postfix(start, Expr::Name(name))
    }

    /// Subscripts `[index]` or `[lo:hi]` and `AT TIME ZONE tz` after an
    /// expression, as many as follow.
    fn parse_postfix(&mut self, start: usize, expr: Expr) -> (res: Option<Expr>)
        requires
            old(self).wf(),
        ensures
            final(self).moved(*old(self)),
            ({
                let ts = old(self).toks();
                let p = old(self).at();
                &&& final(self).at() > p ==> (res matches Some(e) ==> e is Subscript || e is AtTimeZone)
                &&& res matches Some(e) ==> e == expr || e is Subscript || e is AtTimeZone
                &&& kind_at(ts, p) == Some(TokenKind::LeftBracket) && lone_literal(ts, p + 1) && kind_at(ts, p + 2) == Some(
                    TokenKind::RightBracket,
                ) && kind_at(ts, p + 3) != Some(TokenKind::LeftBracket) && !kw_at(ts, p + 3, Keyword::At) ==> (res matches Some(
                    Expr::Subscript(sb),
                ) && sb.item.index.item == literal_expr_at(ts, p + 1) && sb.item.upper is None) && final(self).at() == p + 3
            }),
            old(self).kind_now() != Some(TokenKind::LeftBracket) && old(self).kind_now() != Some(
                TokenKind::Keyword(Keyword::At),
            ) ==> res == Some(expr) && final(self).at() == old(self).at(),
        decreases old(self).rem(), 6nat,
    {
        let ghost p0 = self.at();
        let ghost given = expr;
        let mut expr = expr;
        loop
            invariant
                self.moved(*old(self)),
                p0 == old(self).at(),
                self.at() == p0 ==> expr == given,
                self.at() > p0 ==> old(self).kind_now() == Some(TokenKind::LeftBracket) || old(self).kind_now()
                    == Some(TokenKind::Keyword(Keyword::At)),
                self.at() > p0 ==> expr is Subscript || expr is AtTimeZone,
                expr == given || expr is Subscript || expr is AtTimeZone,
                ({
                    let ts = old(self).toks();
                    kind_at(ts, p0) == Some(TokenKind::LeftBracket) && lone_literal(ts, p0 + 1) && kind_at(ts, p0 + 2)
                        == Some(TokenKind::RightBracket) && kind_at(ts, p0 + 3) != Some(TokenKind::LeftBracket) && !kw_at(
                        ts,
                        p0 + 3,
                        Keyword::At,
                    ) ==> self.at() == p0 || (self.at() == p0 + 3 && (expr matches Expr::Subscript(sb)
                        && sb.item.index.item == literal_expr_at(ts, p0 + 1) && sb.item.upper is None))
                }),
            ensures
                self.moved(*old(self)),
                p0 == old(self).at(),
                self.at() == p0 ==> expr == given,
                self.at() > p0 ==> old(self).kind_now() == Some(TokenKind::LeftBracket) || old(self).kind_now()
                    == Some(TokenKind::Keyword(Keyword::At)),
                self.at() > p0 ==> expr is Subscript || expr is AtTimeZone,
                expr == given || expr is Subscript || expr is AtTimeZone,
                ({
                    let ts = old(self).toks();
                    kind_at(ts, p0) == Some(TokenKind::LeftBracket) && lone_literal(ts, p0 + 1) && kind_at(ts, p0 + 2)
                        == Some(TokenKind::RightBracket) && kind_at(ts, p0 + 3) != Some(TokenKind::LeftBracket) && !kw_at(
                        ts,
                        p0 + 3,
                        Keyword::At,
                    ) ==> self.at() == p0 + 3 && (expr matches Expr::Subscript(sb) && sb.item.index.item
                        == literal_expr_at(ts, p0 + 1) && sb.item.upper is None)
                }),
            decreases self.rem(),
        {
            if self.eat(TokenKind::LeftBracket).is_some() {
                let s = self.pos();
                let i = self.parse_expr()?;
                let index = Box::new(Loc::new(self.span_from(s), i));
                let upper = if self.eat(TokenKind::Colon).is_some() {
                    let s = self.pos();
                    let u = self.parse_expr()?;
                    Some(Box::new(Loc::new(self.span_from(s), u)))
                } else {
                    None
                };
                let _ = self.eat(TokenKind::RightBracket);
                let span = self.span_from(start);
                expr =
                Expr::Subscript(
                    Loc::new(span, Subscript { expr: Box::new(Loc::new(span, expr)), index, upper }),
                );
                continue;
            }
            if self.kw(Keyword::At).is_some() {
                self.kw(Keyword::Time)?;
                self.kw(Keyword::Zone)?;
                let s = self.pos();
                let t = self.parse_expr()?;
                let timezone = Box::new(Loc::new(self.span_from(s), t));
                let span = self.span_from(start);
                expr =
                Expr::AtTimeZone(
                    Loc::new(span, AtTimeZone { expr: Box::new(Loc::new(span, expr)), timezone }),
                );
                continue;
            }
            break;
        }
        Some(expr)
    }

    /// Past `CAST`: `(expr AS type)`.
    fn parse_cast(&mut self, start: usize) -> (res: Option<Expr>)
        requires
            old(self).wf(),
        ensures
            final(self).moved(*old(self)),
            ({
                let ts = old(self).toks();
                let p = old(self).at();
                &&& res matches Some(e) ==> e is Cast
                &&& res is Some ==> kind_at(ts, p) == Some(TokenKind::LeftParen)
                &&& kind_at(ts, p) == Some(TokenKind::LeftParen) && lone_literal(ts, p + 1) && kw_at(ts, p + 2, Keyword::As)
                    && name_part_kind(kind_at(ts, p + 3)) && kind_at(ts, p + 4) != Some(TokenKind::Dot) && kind_at(ts, p + 4)
                    != Some(TokenKind::LeftParen) ==> (res matches Some(Expr::Cast(c)) && c.item.expr.item
                    == literal_expr_at(ts, p + 1) && c.item.data_type.item is Named)
            }),
        decreases old(self).rem(), 6nat,
    {
        self.eat(TokenKind::LeftParen)?;
        let s = self.pos();
        let e = self.parse_expr()?;
        let expr = Box::new(Loc::new(self.span_from(s), e));
        self.kw(Keyword::As)?;
        let s = self.pos();
        let dt = self.parse_data_type()?;
        let data_type = Loc::new(self.span_from(s), dt);
        let _ = self.eat(TokenKind::RightParen);
        Some(Expr::Cast(Loc::new(self.span_from(start), Cast { expr, data_type })))
    }

    /// A type name, with `(params)` where they follow.
    fn parse_data_type(&mut self) -> (res: Option<DataType>)
        requires
            old(self).wf(),
        ensures
            final(self).moved(*old(self)),
            ({
                let ts = old(self).toks();
                let p = old(self).at();
                &&& res is Some ==> name_part_kind(kind_at(ts, p))
                &&& !name_part_kind(kind_at(ts, p)) ==> res is None && final(self).at() == p
                &&& name_part_kind(kind_at(ts, p)) && kind_at(ts, p + 1) != Some(TokenKind::Dot) && kind_at(ts, p + 1)
                    != Some(TokenKind::LeftParen) ==> (res matches Some(DataType::Named(n)) && n.item.parts.items@.len()
                    == 1) && final(self).at() == p + 1
            }),
    {
        let ghost p0 = self.at();
        let s = self.pos();
        let qn = self.parse_qualified_name()?;
        let name = Loc::new(self.span_from(s), qn);
        if self.eat(TokenKind::LeftParen).is_none() {
            return Some(DataType::Named(name));
        }
        let mut params: Vec<Loc<TypeParam>> = Vec::new();
        loop
            invariant
                self.moved(*old(self)),
                p0 == old(self).at(),
                name_part_kind(kind_at(old(self).toks(), p0)),
                kind_at(old(self).toks(), p0 + 1) == Some(TokenKind::Dot) || kind_at(old(self).toks(), p0 + 1) == Some(
                    TokenKind::LeftParen,
                ),
            decreases self.rem(),
        {
            let k = self.kind()?;
            let param = if k == TokenKind::Number {
                let tok = self.current()?;
                let n = parse_i64(tok.text.as_str())?;
                let span = tok.span;
                let _ = self.advance();
                Loc::new(span, TypeParam::Number(n))
            } else if k == TokenKind::Identifier || matches!(k, TokenKind::IdentifierQuoted(_)) {
                let span = self.span();
                let _ = self.advance();
                Loc::new(span, TypeParam::Ident(span))
            } else {
                break;
            };
            params.push(param);
            if self.eat(TokenKind::Comma).is_none() {
                break;
            }
        }
        let _ = self.eat(TokenKind::RightParen);
        Some(DataType::Parameterized { name, params })
    }

    /// Past `CASE`: `[operand] WHEN .. THEN .. ... [ELSE ..] END`.
    #[verifier::rlimit(40)]
    fn parse_case(&mut self, start: usize) -> (res: Option<Expr>)
        requires
            old(self).wf(),
        ensures
            final(self).moved(*old(self)),
            ({
                let ts = old(self).toks();
                let p = old(self).at();
                &&& res matches Some(e) ==> e matches Expr::Case(c) && (c.item.operand is None <==> kw_at(ts, p, Keyword::When))
                &&& single_when_case(ts, p) ==> (res matches Some(Expr::Case(c)) && c.item.when_clauses@.len() == 1
                    && c.item.when_clauses@[0].when.item == literal_expr_at(ts, p + 1) && c.item.else_clause is None)
                    && final(self).at() == p + 5
            }),
        decreases old(self).rem(), 11nat,
    {
        let ghost p0 = self.at();
        let operand = if self.kind() != Some(TokenKind::Keyword(Keyword::When)) {
            let s = self.pos();
            let e = self.parse_expr()?;
            Some(Box::new(Loc::new(self.span_from(s), e)))
        } else {
            None
        };
        let mut when_clauses: Vec<WhenClause> = Vec::new();
        loop
            invariant
                self.moved(*old(self)),
                p0 == old(self).at(),
                operand is None <==> kw_at(old(self).toks(), p0, Keyword::When),
                single_when_case(old(self).toks(), p0) ==> (self.at() == p0 && when_clauses@.len() == 0) || (self.at()
                    == p0 + 4 && when_clauses@.len() == 1 && when_clauses@[0].when.item == literal_expr_at(
                    old(self).toks(),
                    p0 + 1,
                )),
            ensures
                self.moved(*old(self)),
                p0 == old(self).at(),
                operand is None <==> kw_at(old(self).toks(), p0, Keyword::When),
                single_when_case(old(self).toks(), p0) ==> self.at() == p0 + 4 && when_clauses@.len() == 1
                    && when_clauses@[0].when.item == literal_expr_at(old(self).toks(), p0 + 1),
            decreases self.rem(),
        {
            if self.kw(Keyword::When).is_none() {
                break;
            }
            let s = self.pos();
            let w = self.parse_expr()?;
            let when = Loc::new(self.span_from(s), w);
            self.kw(Keyword::Then)?;
            let s = self.pos();
            let t = self.parse_expr()?;
            let then = Loc::new(self.span_from(s), t);
            when_clauses.push(WhenClause { when, then });
        }
        let else_clause = if self.kw(Keyword::Else).is_some() {
            let s = self.pos();
            let e = self.parse_expr()?;
            Some(Box::new(Loc::new(self.span_from(s), e)))
        } else {
            None
        };
        self.kw(Keyword::End)?;
        Some(Expr::Case(Loc::new(self.span_from(start), Case { operand, when_clauses, else_clause })))
    }

    /// `ANY (..)`, `SOME (..)` or `ALL (..)`, over a subquery or an
    /// expression.
    fn parse_quantified(&mut self, start: usize) -> (res: Option<Expr>)
        requires
            old(self).wf(),
        ensures
            final(self).moved(*old(self)),
            ({
                let ts = old(self).toks();
                let p = old(self).at();
                &&& res matches Some(e) ==> e matches Expr::Quantified(q) && (q.item.quantifier is Any <==> kw_at(ts, p, Keyword::Any))
                &&& kw_at(ts, p, Keyword::All) && kind_at(ts, p + 1) != Some(TokenKind::LeftParen) ==> res is None && final(self).at() == p
                &&& kw_at(ts, p, Keyword::Any) && kind_at(ts, p + 1) == Some(TokenKind::LeftParen) && lone_literal(ts, p + 2)
                    && kind_at(ts, p + 3) == Some(TokenKind::RightParen) ==> (res matches Some(Expr::Quantified(q))
                    && q.item.quantifier is Any && q.item.expr.item == literal_expr_at(ts, p + 2)) && final(self).at() == p + 4
            }),
            res is Some ==> final(self).at() > old(self).at(),
            !(old(self).kind_now() == Some(TokenKind::Keyword(Keyword::Any)) || old(self).kind_now()
                == Some(TokenKind::Keyword(Keyword::SomeKw)) || old(self).kind_now() == Some(
                TokenKind::Keyword(Keyword::All),
            )) ==> res is None && final(self).at() == old(self).at(),
        decreases old(self).rem(), 6nat,
    {
        let k = self.kind()?;
        let quantifier = if k == TokenKind::Keyword(Keyword::Any) {
            Quantifier::Any
        } else if k == TokenKind::Keyword(Keyword::SomeKw) {
            Quantifier::SomeOf
        } else if k == TokenKind::Keyword(Keyword::All) && self.peek_kind() == Some(
            TokenKind::LeftParen,
        ) {
            Quantifier::All
        } else {
            return None;
        };
        let _ = self.advance();
        self.eat(TokenKind::LeftParen)?;
        let k = self.kind();
        let expr = if k == Some(TokenKind::Keyword(Keyword::Select)) || k == Some(
            TokenKind::Keyword(Keyword::With),
        ) {
            let s = self.pos();
            let q = self.parse_query();
            let span = self.span_from(s);
            Box::new(Loc::new(span, Expr::Subquery(Box::new(Loc::new(span, q)))))
        } else {
            let s = self.pos();
            let e = self.parse_expr()?;
            Box::new(Loc::new(self.span_from(s), e))
        };
        let _ = self.eat(TokenKind::RightParen);
        Some(Expr::Quantified(Loc::new(self.span_from(start), Quantified { quantifier, expr })))
    }

    /// `DATE|TIME|TIMESTAMP|INTERVAL 'text'`.
    fn parse_typed_literal(&mut self, start: usize) -> (res: Option<Loc<Literal>>)
        requires
            old(self).wf(),
        ensures
            final(self).moved(*old(self)),
            ({
                let ts = old(self).toks();
                let p = old(self).at();
                &&& res is Some <==> (kw_at(ts, p, Keyword::Date) || kw_at(ts, p, Keyword::Time) || kw_at(ts, p, Keyword::Timestamp)
                    || kw_at(ts, p, Keyword::Interval)) && kind_at(ts, p + 1) == Some(TokenKind::Str)
                &&& res matches Some(l) ==> (l.item matches Literal::TypedString { value, .. } && value == ts[p + 1].span)
                    && final(self).at() == p + 2
            }),
            res is Some ==> final(self).at() > old(self).at(),
            !(old(self).kind_now() == Some(TokenKind::Keyword(Keyword::Date)) || old(self).kind_now()
                == Some(TokenKind::Keyword(Keyword::Time)) || old(self).kind_now() == Some(
                TokenKind::Keyword(Keyword::Timestamp),
            ) || old(self).kind_now() == Some(TokenKind::Keyword(Keyword::Interval))) ==> res is None
                && final(self).at() == old(self).at(),
    {
        let k = self.kind()?;
        let data_type = if k == TokenKind::Keyword(Keyword::Date) {
            TypedLiteralKind::Date
        } else if k == TokenKind::Keyword(Keyword::Time) {
            TypedLiteralKind::Time
        } else if k == TokenKind::Keyword(Keyword::Timestamp) {
            TypedLiteralKind::Timestamp
        } else if k == TokenKind::Keyword(Keyword::Interval) {
            TypedLiteralKind::Interval
        } else {
            return None;
        };
        let _ = self.advance();
        let tok = self.eat(TokenKind::Str)?;
        let value = tok.span;
        Some(Loc::new(self.span_from(start), Literal::TypedString { data_type, value }))
    }

    /// Past `name(`: the arguments, `)`, then `FILTER (WHERE ..)` and `OVER`
    /// where they follow.
    fn parse_func_call(&mut self, name: Loc<QualifiedName>, start: usize) -> (res: Option<Expr>)
        requires
            old(self).wf(),
        ensures
            final(self).moved(*old(self)),
            ({
                let ts = old(self).toks();
                let p = old(self).at();
                &&& res matches Some(e) ==> e is FunctionCall || e is Over || e is Subscript || e is AtTimeZone
                &&& kind_at(ts, p) == Some(TokenKind::RightParen) && !kw_at(ts, p + 1, Keyword::Filter) && !kw_at(ts, p + 1, Keyword::Over)
                    && kind_at(ts, p + 1) != Some(TokenKind::LeftBracket) && !kw_at(ts, p + 1, Keyword::At) ==> (res matches Some(
                    Expr::FunctionCall(fc),
                ) && fc.item.name == name && !fc.item.distinct && fc.item.args.item.items@.len() == 0 && fc.item.filter is None)
                    && final(self).at() == p + 1
            }),
        decreases old(self).rem(), 13nat,
    {
        let distinct = self.kw(Keyword::Distinct).is_some();
        let args_start = self.pos();
        let args = self.args_exprs();
        let _ = self.eat(TokenKind::RightParen);
        let args_span = Span::new(args_start, self.end(args_start));
        let filter = if self.kw(Keyword::Filter).is_some() {
            self.eat(TokenKind::LeftParen)?;
            let _ = self.kw(Keyword::Where);
            let s = self.pos();
            let pred = match self.parse_expr() {
                Some(e) => Some(Loc::new(self.span_from(s), e)),
                None => None,
            };
            let _ = self.eat(TokenKind::RightParen);
            Some(Box::new(pred?))
        } else {
            None
        };
        let span = Span::new(name.span.start, self.end(name.span.end));
        let expr = if self.kw(Keyword::Over).is_some() {
            let over = self.parse_window_ref()?;
            Expr::Over(Loc::new(span, Over { name, args: Loc::new(args_span, args), over, filter }))
        } else {
            Expr::FunctionCall(
                Loc::new(
                    span,
                    FunctionCall { name, distinct, args: Loc::new(args_span, args), filter },
                ),
            )
        };
        self.parse_postfix(start, expr)
    }

    /// `(window spec)` or a window name.
    fn parse_window_ref(&mut self) -> (res: Option<WindowRef>)
        requires
            old(self).wf(),
        ensures
            final(self).moved(*old(self)),
            ({
                let ts = old(self).toks();
                let p = old(self).at();
                &&& kind_at(ts, p) == Some(TokenKind::LeftParen) ==> (res matches Some(WindowRef::Spec(_)))
                &&& ident_kind(kind_at(ts, p)) ==> (res matches Some(WindowRef::Name(n)) && n.item == ts[p].span) && final(self).at() == p + 1
                &&& kind_at(ts, p) != Some(TokenKind::LeftParen) && !ident_kind(kind_at(ts, p)) ==> res is None && final(self).at() == p
            }),
        decreases old(self).rem(), 6nat,
    {
        if self.eat(TokenKind::LeftParen).is_some() {
            let s = self.pos();
            let ws = self.parse_window_spec();
            let spec = Loc::new(self.span_from(s), ws);
            let _ = self.eat(TokenKind::RightParen);
            return Some(WindowRef::Spec(Box::new(spec)));
        }
        let s = self.pos();
        let id = self.ident()?;
        Some(WindowRef::Name(Loc::new(self.span_from(s), id)))
    }

    /// A number, float, string, `NULL`, `TRUE`, `FALSE` or `UNKNOWN`.
    fn parse_literal(&mut self) -> (res: Option<Loc<Literal>>)
        requires
            old(self).wf(),
        ensures
            final(self).moved(*old(self)),
            res is Some ==> final(self).at() > old(self).at(),
            match literal_token(old(self).toks(), old(self).at()) {
                Some(l) => res matches Some(x) && x.span == old(self).toks()[old(self).at()].span && x.item == l,
                None => res is None,
            },
            is_literal_kind(old(self).kind_now()) ==> final(self).at() == old(self).at() + 1,
            !is_literal_kind(old(self).kind_now()) ==> final(self).at() == old(self).at(),
    {
        let tok = self.current()?;
        let span = tok.span;
        let lit = match tok.kind {
            TokenKind::Number => {
                let _ = self.advance();
                Literal::Number(parse_i64(tok.text.as_str())?)
            },
            TokenKind::Float => {
                let _ = self.advance();
                Literal::Float(span)
            },
            TokenKind::Str => {
                let _ = self.advance();
                Literal::String(span)
            },
            TokenKind::Keyword(Keyword::Null) => {
                let _ = self.advance();
                Literal::Null
            },
            TokenKind::Keyword(Keyword::True) => {
                let _ = self.advance();
                Literal::Boolean(Boolean::True)
            },
            TokenKind::Keyword(Keyword::False) => {
                let _ = self.advance();
                Literal::Boolean(Boolean::False)
            },
            TokenKind::Keyword(Keyword::Unknown) => {
                let _ = self.advance();
                Literal::Boolean(Boolean::Unknown)
            },
            _ => return None,
        };
        Some(Loc::new(span, lit))
    }
}

} // verus!
