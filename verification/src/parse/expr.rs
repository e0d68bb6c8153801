//! Expressions: a precedence-climbing parser over the operators' binding
//! powers, with the special forms (`BETWEEN`, `LIKE`, `IN`, `IS NULL`, `CASE`,
//! function calls, window calls) read by their own rules.
use vstd::prelude::*;
use vstd::utf8::encode_utf8;

use crate::ast::{Between, Binary, Boolean, Case, DelimitedList, Expr, ExprList, FunctionCall, In, IsNull, Like, Literal, Over, Paren, Quantified, Quantifier, Similar, TypedLiteralKind, Unary, WhenClause, WindowRef};
use crate::lex::{Assoc, Keyword, OpTag, Operator, TokenKind};
use crate::lex::tape::kind_at;
use crate::parse::number::{parse_i64, spec_parse_i64};
use crate::parse::parser::{
    name_end, qname_at, list_select_at, list_select_end, list_select_query, closer_kind, ident_kind, literal_expr_at, name_part_at, name_part_kind_v1, spec_current_pos, Parser,
};
use crate::span::{Loc, Span};

verus! {

/// The literal a token stands for: a number whose text reads as an `i64`,
/// a float or string (kept as its span), `NULL`, `TRUE`, `FALSE` or
/// `UNKNOWN`.
pub open spec fn literal_token(ts: Seq<crate::lex::Token>, p: int) -> Option<Literal> {
    match kind_at(ts, p) {
        Some(TokenKind::Number) => match spec_parse_i64(encode_utf8(ts[p].text@)) {
            Some(v) => Some(Literal::Number(v)),
            None => None,
        },
        Some(TokenKind::Float) => Some(Literal::Float(ts[p].span)),
        Some(TokenKind::Str) => Some(Literal::String(ts[p].span)),
        Some(TokenKind::Keyword(Keyword::Null)) => Some(Literal::Null),
        Some(TokenKind::Keyword(Keyword::True)) => Some(Literal::Boolean(Boolean::True)),
        Some(TokenKind::Keyword(Keyword::False)) => Some(Literal::Boolean(Boolean::False)),
        Some(TokenKind::Keyword(Keyword::Unknown)) => Some(Literal::Boolean(Boolean::Unknown)),
        _ => None,
    }
}

/// Whether a token kind is that of a literal.
pub open spec fn is_literal_kind(k: Option<TokenKind>) -> bool {
    match k {
        Some(TokenKind::Number) | Some(TokenKind::Float) | Some(TokenKind::Str) | Some(
            TokenKind::Keyword(Keyword::Null),
        ) | Some(TokenKind::Keyword(Keyword::True)) | Some(TokenKind::Keyword(Keyword::False)) | Some(
            TokenKind::Keyword(Keyword::Unknown),
        ) => true,
        _ => false,
    }
}

/// A literal token with no operator after it: read as an expression, it is
/// that literal alone.
pub open spec fn lone_literal_at(ts: Seq<crate::lex::Token>, p: int) -> bool {
    literal_token(ts, p) is Some && !(kind_at(ts, p + 1) matches Some(TokenKind::Operator(_)))
}

/// Whether the token at `p` is the keyword.
pub open spec fn kw_at(ts: Seq<crate::lex::Token>, p: int, k: Keyword) -> bool {
    kind_at(ts, p) == Some(TokenKind::Keyword(k))
}

/// Whether the token at `p` is an operator with the semantic tag.
pub open spec fn op_at(ts: Seq<crate::lex::Token>, p: int, t: OpTag) -> bool {
    kind_at(ts, p) matches Some(TokenKind::Operator(o)) && o.semantic_tag == t
}

/// `WHEN lit THEN lit END` at `p`: a `CASE` body with one branch and no
/// operand or `ELSE`.
pub open spec fn single_when_case(ts: Seq<crate::lex::Token>, p: int) -> bool {
    &&& kw_at(ts, p, Keyword::When)
    &&& lone_literal_at(ts, p + 1)
    &&& kw_at(ts, p + 2, Keyword::Then)
    &&& lone_literal_at(ts, p + 3)
    &&& kw_at(ts, p + 4, Keyword::End)
}

/// The expression a `CASE` branch gives.
pub open spec fn branch_result(w: WhenClause) -> Expr {
    match w {
        WhenClause { then: t, .. } => t.item,
    }
}

/// A name, possibly called.
pub open spec fn is_name_or_call(e: Expr) -> bool {
    e is Name || e is FunctionCall || e is Over
}

/// What the token at `p` makes of the expression read from it: a literal
/// token its literal (a number only where its text reads as an `i64`); a
/// keyword or operator that starts a special form that form, where it
/// parses; a name a name or call; `(` a subquery before `SELECT` or `WITH`,
/// else a parenthesized expression where one parses; anything else nothing.
pub open spec fn prefix_shape(ts: Seq<crate::lex::Token>, p: int, res: Option<Expr>) -> bool {
    let lit = |l: Literal| res matches Some(Expr::Literal(x)) && x.span == ts[p].span && x.item == l;
    match kind_at(ts, p) {
        None => res is None,
        Some(TokenKind::Number) | Some(TokenKind::Float) | Some(TokenKind::Str) | Some(
            TokenKind::Keyword(Keyword::Null),
        ) | Some(TokenKind::Keyword(Keyword::True)) | Some(TokenKind::Keyword(Keyword::False)) | Some(
            TokenKind::Keyword(Keyword::Unknown),
        ) => match literal_token(ts, p) {
            Some(l) => lit(l),
            None => res is None,
        },
        Some(TokenKind::Keyword(Keyword::Date)) => res is None || (res matches Some(Expr::Literal(x))
            && x.item matches Literal::TypedString { data_type: TypedLiteralKind::Date, .. }),
        Some(TokenKind::Keyword(Keyword::Time)) => res is None || (res matches Some(Expr::Literal(x))
            && x.item matches Literal::TypedString { data_type: TypedLiteralKind::Time, .. }),
        Some(TokenKind::Keyword(Keyword::Timestamp)) => res is None || (res matches Some(
            Expr::Literal(x),
        ) && x.item matches Literal::TypedString { data_type: TypedLiteralKind::Timestamp, .. }),
        Some(TokenKind::Keyword(Keyword::Case)) => res is None || res->0 is Case,
        Some(TokenKind::Keyword(Keyword::Array)) => res is None || res->0 is Array,
        Some(TokenKind::Keyword(Keyword::Any)) => res is None || (res matches Some(Expr::Quantified(q))
            && q.item.quantifier == Quantifier::Any),
        Some(TokenKind::Keyword(Keyword::SomeKw)) => res is None || (res matches Some(
            Expr::Quantified(q),
        ) && q.item.quantifier == Quantifier::SomeOf),
        Some(TokenKind::Keyword(Keyword::All)) => res is None || (res matches Some(Expr::Quantified(q))
            && q.item.quantifier == Quantifier::All),
        Some(TokenKind::Operator(op)) => if op.semantic_tag == OpTag::Exists {
            if kind_at(ts, p + 1) == Some(TokenKind::LeftParen) {
                res matches Some(Expr::Exists(_))
            } else {
                res is None
            }
        } else if op.semantic_tag == OpTag::Mul {
            res is None || is_name_or_call(res->0)
        } else if spec_is_prefix_op(op.semantic_tag) {
            res is None || (res matches Some(Expr::Unary(u)) && u.item.op_tok.item == op.semantic_tag)
        } else {
            res is None
        },
        Some(TokenKind::Identifier) | Some(TokenKind::IdentifierQuoted(_)) => res is None
            || is_name_or_call(res->0),
        Some(TokenKind::LeftParen) => if kind_at(ts, p + 1) == Some(TokenKind::Keyword(Keyword::Select))
            || kind_at(ts, p + 1) == Some(TokenKind::Keyword(Keyword::With)) {
            res matches Some(Expr::Subquery(_))
        } else {
            res is None || res->0 is Paren
        },
        _ => res is None,
    }
}

/// The binding power of the operator at `p`, where there is one.
pub open spec fn op_prec_at(ts: Seq<crate::lex::Token>, p: int) -> Option<u8> {
    match kind_at(ts, p) {
        Some(TokenKind::Operator(op)) => Some(op.precedence),
        _ => None,
    }
}

/// Whether an expression read with binding power `min_prec` stops at `p`:
/// no operator is there, or one that binds less tightly.
pub open spec fn stops_before(ts: Seq<crate::lex::Token>, p: int, min_prec: u8) -> bool {
    op_prec_at(ts, p) matches Some(pr) ==> pr < min_prec
}

/// A name of one part at `p`: an identifier followed by neither `.` nor `(`.
pub open spec fn single_name_at(ts: Seq<crate::lex::Token>, p: int) -> bool {
    &&& ident_kind(kind_at(ts, p))
    &&& kind_at(ts, p + 1) != Some(TokenKind::Dot)
    &&& kind_at(ts, p + 1) != Some(TokenKind::LeftParen)
}

/// The expression is the one-part name at `p`, spanning that token.
pub open spec fn is_name_at(e: Expr, ts: Seq<crate::lex::Token>, p: int) -> bool {
    e matches Expr::Name(n) && n.span == ts[p].span && n.item.parts.items@.len() == 1
        && n.item.parts.items@[0].item == name_part_at(ts, p)
}

/// The expression of the operand at `p`: the literal there, or the
/// one-part name.
pub open spec fn operand_is(e: Expr, ts: Seq<crate::lex::Token>, p: int) -> bool {
    if literal_token(ts, p) is Some {
        e == literal_expr_at(ts, p)
    } else {
        is_name_at(e, ts, p)
    }
}

/// An operand at `p` that is read as itself: a literal, or a one-part name.
pub open spec fn operand_at(ts: Seq<crate::lex::Token>, p: int) -> bool {
    literal_token(ts, p) is Some || single_name_at(ts, p)
}

/// Where the dotted name that starts at `p` ends.
pub open spec fn name_after(ts: Seq<crate::lex::Token>, p: int) -> int {
    name_end(ts, p + 1)
}

/// `name()` or `name(operand)` at `p`, the name dotted or not, with no
/// `FILTER` or `OVER` after the `)`: how many arguments it has.
pub open spec fn plain_call_args(ts: Seq<crate::lex::Token>, p: int) -> Option<nat> {
    let e = name_after(ts, p);
    if !(name_part_kind_v1(kind_at(ts, p)) && kind_at(ts, e) == Some(TokenKind::LeftParen)) {
        None
    } else if kind_at(ts, e + 1) == Some(TokenKind::RightParen) && !kw_at(ts, e + 2, Keyword::Filter) && !kw_at(
        ts,
        e + 2,
        Keyword::Over,
    ) {
        Some(0)
    } else if operand_at(ts, e + 1) && !(kind_at(ts, e + 1) matches Some(TokenKind::Operator(_))) && kind_at(ts, e + 2)
        == Some(TokenKind::RightParen) && !kw_at(ts, e + 3, Keyword::Filter) && !kw_at(ts, e + 3, Keyword::Over) {
        Some(1)
    } else {
        None
    }
}

/// The call read from the plain call at `p` with `n` arguments: its name,
/// no `DISTINCT` or `FILTER`, and its argument.
pub open spec fn plain_call_is(e: Expr, ts: Seq<crate::lex::Token>, p: int, n: nat) -> bool {
    let q = name_after(ts, p);
    e matches Expr::FunctionCall(c) && qname_at(c.item.name, ts, p) && !c.item.distinct && c.item.filter is None
        && c.item.args.item.items@.len() == n && (n == 1 ==> operand_is(c.item.args.item.items@[0].item, ts, q + 1))
}

/// Whether the operator is one read by the plain binary rule, not by the
/// rule of `BETWEEN`, `LIKE`, `ILIKE`, `SIMILAR`, `IN` or `IS`.
pub open spec fn plain_binary_tag(t: OpTag) -> bool {
    !(t == OpTag::Between || t == OpTag::Like || t == OpTag::Ilike || t == OpTag::Similar || t == OpTag::In
        || t == OpTag::Is)
}

/// `operand op operand` at `p`, the operator a plain binary one binding at
/// least `min_prec`, and no operator after the second operand.
pub open spec fn simple_binary_at(ts: Seq<crate::lex::Token>, p: int, min_prec: u8) -> bool {
    &&& operand_at(ts, p)
    &&& kind_at(ts, p + 1) matches Some(TokenKind::Operator(op)) && plain_binary_tag(op.semantic_tag)
        && op.precedence >= min_prec
    &&& operand_at(ts, p + 2)
    &&& !(kind_at(ts, p + 2) matches Some(TokenKind::Operator(_)))
    &&& !(kind_at(ts, p + 3) matches Some(TokenKind::Operator(_)))
}

/// The expression read from the simple binary at `p`: its two operands and
/// its operator, each where it stands.
pub open spec fn simple_binary_is(e: Expr, ts: Seq<crate::lex::Token>, p: int) -> bool {
    e matches Expr::Binary(b) && operand_is(b.item.left.item, ts, p) && (b.item.op matches Some(o) && (kind_at(ts, p + 1)
        matches Some(TokenKind::Operator(op)) && o.item == op.semantic_tag) && o.span == ts[p + 1].span) && (
    b.item.right matches Some(r) && operand_is(r.item, ts, p + 2))
}

/// `op name` at `p`, read with the operator's binding power: the unary
/// expression over the name, from the operator to the end of the name.
pub open spec fn is_unary_name_at(e: Expr, ts: Seq<crate::lex::Token>, p: int, op: OpTag) -> bool {
    e matches Expr::Unary(u) && u.item.op_tok.item == op && u.span.start == ts[p].span.start && u.span.end
        == ts[p + 1].span.end && u.item.expr.span == ts[p + 1].span && is_name_at(u.item.expr.item, ts, p + 1)
}

/// The prefix operator at `p`, where there is one.
pub open spec fn prefix_op_at(ts: Seq<crate::lex::Token>, p: int) -> Option<OpTag> {
    match kind_at(ts, p) {
        Some(TokenKind::Operator(op)) => if spec_is_prefix_op(op.semantic_tag) {
            Some(op.semantic_tag)
        } else {
            None
        },
        _ => None,
    }
}

/// Whether an operator can stand before its operand.
pub open spec fn spec_is_prefix_op(op: OpTag) -> bool {
    match op {
        OpTag::Not | OpTag::Sub | OpTag::Add | OpTag::BitAnd | OpTag::BitOr | OpTag::BitXor => true,
        _ => false,
    }
}

/// The binding power of a prefix operator's operand: `NOT` binds loosely,
/// the others tightly.
pub open spec fn spec_prefix_binding_power(op: OpTag) -> u8 {
    match op {
        OpTag::Not => 20,
        _ => 50,
    }
}

/// A prefix `NOT` reads its operand binding as tightly as multiplication
/// (binding power 20): the operand ends before every operator that binds
/// less tightly — `OR` (1), `AND` (2), the comparisons (5), `IS`, `LIKE`,
/// `IN` and `BETWEEN` (6), `||` (8), `+` and `-` (10) — so `NOT x AND y`
/// reads as `(NOT x) AND y`; it goes on through `*`, `/`, `%` and operators
/// binding more tightly still.
pub proof fn law_not_operand_ends_below_multiplication(ts: Seq<crate::lex::Token>, p: int)
    ensures
        stops_before(ts, p, spec_prefix_binding_power(OpTag::Not)) <==> (op_prec_at(ts, p) matches Some(pr)
            ==> pr < 20),
{
}

/// Every other prefix operator (`-`, `+`, `&`, `|`, `^`) reads its operand
/// with binding power 50, above every binary operator of the dialects: its
/// operand ends before any operator binding below 50, so `-x * y` reads as
/// `(-x) * y`.
pub proof fn law_sign_operand_ends_below_fifty(ts: Seq<crate::lex::Token>, p: int, o: OpTag)
    requires
        o != OpTag::Not,
    ensures
        stops_before(ts, p, spec_prefix_binding_power(o)) <==> (op_prec_at(ts, p) matches Some(pr) ==> pr < 50),
{
}

/// `op name op2 operand` at `p`: a prefix operator and a one-part name, then
/// a plain binary operator that ends the prefix operator's operand (it binds
/// less tightly than the prefix operator) and binds at least `min_prec`,
/// then an operand with no operator after it.
pub open spec fn unary_then_binary_at(ts: Seq<crate::lex::Token>, p: int, min_prec: u8) -> bool {
    &&& prefix_op_at(ts, p) is Some
    &&& single_name_at(ts, p + 1)
    &&& kind_at(ts, p + 2) matches Some(TokenKind::Operator(op)) && plain_binary_tag(op.semantic_tag)
        && min_prec <= op.precedence && op.precedence < spec_prefix_binding_power(prefix_op_at(ts, p)->0)
    &&& operand_at(ts, p + 3)
    &&& !(kind_at(ts, p + 3) matches Some(TokenKind::Operator(_)))
    &&& !(kind_at(ts, p + 4) matches Some(TokenKind::Operator(_)))
}

/// The expression read from `op name op2 operand` at `p`: the binary
/// operator at `p + 2` over the prefix operator applied to the name, and the
/// operand.
pub open spec fn unary_then_binary_is(e: Expr, ts: Seq<crate::lex::Token>, p: int) -> bool {
    e matches Expr::Binary(b) && is_unary_name_at(b.item.left.item, ts, p, prefix_op_at(ts, p)->0) && (
    b.item.op matches Some(o) && o.span == ts[p + 2].span && (kind_at(ts, p + 2) matches Some(TokenKind::Operator(op))
        && o.item == op.semantic_tag)) && (b.item.right matches Some(r) && operand_is(r.item, ts, p + 3))
}

impl<'a> Parser<'a> {
    /// An expression.
    pub fn parse_expr(&mut self) -> (res: Option<Expr>)
        requires
            old(self).wf(),
        ensures
            final(self).moved(*old(self)),
            res is Some ==> final(self).at() > old(self).at(),
            ({
                let ts = old(self).toks();
                let p = old(self).at();
                literal_token(ts, p) is Some && !(kind_at(ts, p + 1) matches Some(TokenKind::Operator(_)))
                    ==> (res matches Some(Expr::Literal(x)) && x.span == ts[p].span && x.item == literal_token(
                    ts,
                    p,
                )->0)
            }),
            lone_literal_at(old(self).toks(), old(self).at()) ==> final(self).at() == old(self).at() + 1,
            closer_kind(kind_at(old(self).toks(), old(self).at())) ==> res is None && final(self).at() == old(self).at(),
            res is Some ==> stops_before(old(self).toks(), final(self).at(), 0),
            single_name_at(old(self).toks(), old(self).at()) && stops_before(old(self).toks(), old(self).at() + 1, 0)
                ==> (res matches Some(e) && is_name_at(e, old(self).toks(), old(self).at())) && final(self).at() == old(
                self,
            ).at() + 1,
            simple_binary_at(old(self).toks(), old(self).at(), 0) ==> (res matches Some(e) && simple_binary_is(
                e,
                old(self).toks(),
                old(self).at(),
            )) && final(self).at() == old(self).at() + 3,
            unary_then_binary_at(old(self).toks(), old(self).at(), 0) ==> (res matches Some(e) && unary_then_binary_is(
                e,
                old(self).toks(),
                old(self).at(),
            )) && final(self).at() == old(self).at() + 4,
        decreases old(self).rem(), 10nat,
    {
        self.parse_expr_prec(0)
    }

    /// An expression whose infix operators all bind at least `min_prec`.
    pub(crate) fn parse_expr_prec(&mut self, min_prec: u8) -> (res: Option<Expr>)
        requires
            old(self).wf(),
        ensures
            final(self).moved(*old(self)),
            res is Some ==> final(self).at() > old(self).at(),
            ({
                let ts = old(self).toks();
                let p = old(self).at();
                literal_token(ts, p) is Some && !(kind_at(ts, p + 1) matches Some(TokenKind::Operator(_)))
                    ==> (res matches Some(Expr::Literal(x)) && x.span == ts[p].span && x.item == literal_token(
                    ts,
                    p,
                )->0)
            }),
            lone_literal_at(old(self).toks(), old(self).at()) ==> final(self).at() == old(self).at() + 1,
            closer_kind(kind_at(old(self).toks(), old(self).at())) ==> res is None && final(self).at() == old(self).at(),
            res is Some ==> stops_before(old(self).toks(), final(self).at(), min_prec),
            single_name_at(old(self).toks(), old(self).at()) && stops_before(old(self).toks(), old(self).at() + 1, min_prec)
                ==> (res matches Some(e) && is_name_at(e, old(self).toks(), old(self).at())) && final(self).at() == old(
                self,
            ).at() + 1,
            ({
                let ts = old(self).toks();
                let p = old(self).at();
                prefix_op_at(ts, p) matches Some(o) ==> (single_name_at(ts, p + 1) && stops_before(
                    ts,
                    p + 2,
                    spec_prefix_binding_power(o),
                ) && stops_before(ts, p + 2, min_prec) ==> (res matches Some(e) && is_unary_name_at(e, ts, p, o))
                    && final(self).at() == p + 2)
            }),
            simple_binary_at(old(self).toks(), old(self).at(), min_prec) ==> (res matches Some(e) && simple_binary_is(
                e,
                old(self).toks(),
                old(self).at(),
            )) && final(self).at() == old(self).at() + 3,
            unary_then_binary_at(old(self).toks(), old(self).at(), min_prec) ==> (res matches Some(e)
                && unary_then_binary_is(e, old(self).toks(), old(self).at())) && final(self).at() == old(self).at() + 4,
        decreases old(self).rem(), 9nat,
    {
        let ghost p0 = self.at();
        let start_pos = self.current_pos();
        let mut left = self.parse_prefix()?;
        loop
            invariant
                self.moved(*old(self)),
                self.at() > p0,
                p0 == old(self).at(),
                !closer_kind(kind_at(old(self).toks(), p0)),
                literal_token(old(self).toks(), p0) is Some && !(kind_at(old(self).toks(), p0 + 1) matches Some(
                    TokenKind::Operator(_),
                )) ==> self.at() == p0 + 1 && (left matches Expr::Literal(
                    x,
                ) && x.span == old(self).toks()[p0].span && x.item == literal_token(old(self).toks(), p0)->0),
                single_name_at(old(self).toks(), p0) && stops_before(old(self).toks(), p0 + 1, min_prec) ==> self.at()
                    == p0 + 1 && is_name_at(left, old(self).toks(), p0),
                ({
                    let ts = old(self).toks();
                    prefix_op_at(ts, p0) matches Some(o) ==> (single_name_at(ts, p0 + 1) && stops_before(
                        ts,
                        p0 + 2,
                        spec_prefix_binding_power(o),
                    ) && stops_before(ts, p0 + 2, min_prec) ==> self.at() == p0 + 2 && is_unary_name_at(left, ts, p0, o))
                }),
                simple_binary_at(old(self).toks(), p0, min_prec) ==> (self.at() == p0 + 1 && operand_is(left, old(self).toks(), p0))
                    || (self.at() == p0 + 3 && simple_binary_is(left, old(self).toks(), p0)),
                unary_then_binary_at(old(self).toks(), p0, min_prec) ==> (self.at() == p0 + 2 && is_unary_name_at(
                    left,
                    old(self).toks(),
                    p0,
                    prefix_op_at(old(self).toks(), p0)->0,
                )) || (self.at() == p0 + 4 && unary_then_binary_is(left, old(self).toks(), p0)),
            ensures
                self.moved(*old(self)),
                self.at() > p0,
                stops_before(old(self).toks(), self.at(), min_prec),
                literal_token(old(self).toks(), p0) is Some && !(kind_at(old(self).toks(), p0 + 1) matches Some(
                    TokenKind::Operator(_),
                )) ==> self.at() == p0 + 1 && (left matches Expr::Literal(
                    x,
                ) && x.span == old(self).toks()[p0].span && x.item == literal_token(old(self).toks(), p0)->0),
                single_name_at(old(self).toks(), p0) && stops_before(old(self).toks(), p0 + 1, min_prec) ==> self.at()
                    == p0 + 1 && is_name_at(left, old(self).toks(), p0),
                ({
                    let ts = old(self).toks();
                    prefix_op_at(ts, p0) matches Some(o) ==> (single_name_at(ts, p0 + 1) && stops_before(
                        ts,
                        p0 + 2,
                        spec_prefix_binding_power(o),
                    ) && stops_before(ts, p0 + 2, min_prec) ==> self.at() == p0 + 2 && is_unary_name_at(left, ts, p0, o))
                }),
                simple_binary_at(old(self).toks(), p0, min_prec) ==> self.at() == p0 + 3 && simple_binary_is(
                    left,
                    old(self).toks(),
                    p0,
                ),
                unary_then_binary_at(old(self).toks(), p0, min_prec) ==> self.at() == p0 + 4 && unary_then_binary_is(
                    left,
                    old(self).toks(),
                    p0,
                ),
            decreases self.rem(),
        {
            let prec = match self.infix_binding_power() {
                Some(p) => p,
                None => break,
            };
            if prec < min_prec {
                break;
            }
            left = self.parse_infix(left, start_pos, prec)?;
        }
        Some(left)
    }

    /// An operand: a literal, a name or call, a parenthesized expression or
    /// subquery, a special form, or a prefix operator and its operand.
    #[verifier::rlimit(60)]
    pub(crate) fn parse_prefix(&mut self) -> (res: Option<Expr>)
        requires
            old(self).wf(),
        ensures
            final(self).moved(*old(self)),
            res is Some ==> final(self).at() > old(self).at(),
            prefix_shape(old(self).toks(), old(self).at(), res),
            literal_token(old(self).toks(), old(self).at()) is Some ==> final(self).at() == old(self).at() + 1,
            closer_kind(kind_at(old(self).toks(), old(self).at())) ==> res is None && final(self).at() == old(self).at(),
            single_name_at(old(self).toks(), old(self).at()) ==> (res matches Some(e) && is_name_at(
                e,
                old(self).toks(),
                old(self).at(),
            )) && final(self).at() == old(self).at() + 1,
            ({
                let ts = old(self).toks();
                let p = old(self).at();
                &&& prefix_op_at(ts, p) matches Some(o) ==> (res matches Some(Expr::Unary(u)) ==> u.span.start
                    == ts[p].span.start && u.span.end == u.item.expr.span.end && u.item.expr.span.start
                    == spec_current_pos(ts, p + 1) && stops_before(ts, final(self).at(), spec_prefix_binding_power(o)))
                &&& prefix_op_at(ts, p) matches Some(o) ==> (single_name_at(ts, p + 1) && stops_before(
                    ts,
                    p + 2,
                    spec_prefix_binding_power(o),
                ) ==> (res matches Some(e) && is_unary_name_at(e, ts, p, o)) && final(self).at() == p + 2)
                &&& ident_kind(kind_at(ts, p)) && kind_at(ts, name_after(ts, p)) != Some(TokenKind::LeftParen) ==> (
                res matches Some(Expr::Name(n)) && qname_at(n, ts, p)) && final(self).at() == name_after(ts, p)
                &&& ident_kind(kind_at(ts, p)) && plain_call_args(ts, p) is Some ==> (res matches Some(e)
                    && plain_call_is(e, ts, p, plain_call_args(ts, p)->0)) && final(self).at() == name_after(ts, p) + 2
                    + plain_call_args(ts, p)->0
                &&& kind_at(ts, p) == Some(TokenKind::LeftParen) && !(kind_at(ts, p + 1) == Some(TokenKind::Keyword(Keyword::Select))
                    || kind_at(ts, p + 1) == Some(TokenKind::Keyword(Keyword::With))) ==> (res matches Some(Expr::Paren(x)) ==> x.item.open
                    == ts[p].span && x.span.start == ts[p].span.start)
                &&& kind_at(ts, p) == Some(TokenKind::LeftParen) && operand_at(ts, p + 1) && !(kind_at(ts, p + 1) matches Some(
                    TokenKind::Operator(_),
                )) && kind_at(ts, p + 2) == Some(TokenKind::RightParen) ==> (res matches Some(Expr::Paren(x))
                    && x.item.open == ts[p].span && operand_is(x.item.expr.item, ts, p + 1) && x.item.close == Some(
                    ts[p + 2].span,
                ) && x.span.start == ts[p].span.start && x.span.end == ts[p + 2].span.end) && final(self).at() == p + 3
                &&& kind_at(ts, p) == Some(TokenKind::LeftParen) && simple_binary_at(ts, p + 1, 0) && kind_at(ts, p + 4)
                    == Some(TokenKind::RightParen) ==> (res matches Some(Expr::Paren(x)) && x.item.open == ts[p].span
                    && simple_binary_is(x.item.expr.item, ts, p + 1) && x.item.close == Some(ts[p + 4].span))
                    && final(self).at() == p + 5
                &&& kw_at(ts, p, Keyword::Case) && single_when_case(ts, p + 1) ==> (res matches Some(Expr::Case(c))
                    && c.item.operand is None && c.item.when_clauses@.len() == 1 && c.item.else_clause is None
                    && c.item.when_clauses@[0].when.item == literal_expr_at(ts, p + 2)
                    && branch_result(c.item.when_clauses@[0]) == literal_expr_at(ts, p + 4)) && final(self).at() == p + 6
                &&& (kw_at(ts, p, Keyword::Date) || kw_at(ts, p, Keyword::Time) || kw_at(ts, p, Keyword::Timestamp)) ==> (
                res is Some <==> kind_at(ts, p + 1) == Some(TokenKind::Str))
                &&& (kw_at(ts, p, Keyword::Date) || kw_at(ts, p, Keyword::Time) || kw_at(ts, p, Keyword::Timestamp))
                    && kind_at(ts, p + 1) == Some(TokenKind::Str) ==> (res matches Some(Expr::Literal(l)) && (
                l.item matches Literal::TypedString { value: v, .. } && v == ts[p + 1].span)) && final(self).at() == p + 2
                &&& kw_at(ts, p, Keyword::Array) && kind_at(ts, p + 1) == Some(TokenKind::LeftBracket) && kind_at(ts, p + 2)
                    == Some(TokenKind::RightBracket) ==> (res matches Some(Expr::Array(items)) && items.items@.len() == 0)
                    && final(self).at() == p + 3
                &&& kw_at(ts, p, Keyword::Array) && kind_at(ts, p + 1) == Some(TokenKind::LeftBracket) && lone_literal_at(
                    ts,
                    p + 2,
                ) && kind_at(ts, p + 3) == Some(TokenKind::RightBracket) ==> (res matches Some(Expr::Array(items))
                    && items.items@.len() == 1 && items.items@[0].item == literal_expr_at(ts, p + 2)) && final(self).at()
                    == p + 4
                &&& kind_at(ts, p) == Some(TokenKind::LeftParen) && list_select_at(ts, p + 1) && kind_at(
                    ts,
                    list_select_end(ts, p + 1),
                ) == Some(TokenKind::RightParen) ==> (res matches Some(Expr::Subquery(b)) && list_select_query(
                    b.item,
                    ts,
                    p + 1,
                )) && final(self).at() == list_select_end(ts, p + 1) + 1
                &&& (kw_at(ts, p, Keyword::Any) || kw_at(ts, p, Keyword::SomeKw) || kw_at(ts, p, Keyword::All)) && kind_at(
                    ts,
                    p + 1,
                ) == Some(TokenKind::LeftParen) && lone_literal_at(ts, p + 2) ==> (res matches Some(Expr::Quantified(q))
                    && q.item.expr.item == literal_expr_at(ts, p + 2))
            }),
        decreases old(self).rem(), 8nat,
    {
        let span = match self.tokens.current() {
            Some(t) => t.span,
            None => Span::new(0, 0),
        };
        let kind = self.tokens.current_kind()?;
        match kind {
            TokenKind::Number => {
                let tok = self.tokens.advance()?;
                let val = parse_i64(tok.text.as_str())?;
                Some(Expr::Literal(Loc::new(span, Literal::Number(val))))
            },
            TokenKind::Float => {
                let tok = self.tokens.advance()?;
                Some(Expr::Literal(Loc::new(span, Literal::Float(tok.span))))
            },
            TokenKind::Str => {
                let tok = self.tokens.advance()?;
                Some(Expr::Literal(Loc::new(tok.span, Literal::String(tok.span))))
            },
            TokenKind::Keyword(Keyword::Null) => {
                self.tokens.advance()?;
                Some(Expr::Literal(Loc::new(span, Literal::Null)))
            },
            TokenKind::Keyword(Keyword::True) => {
                self.tokens.advance()?;
                Some(Expr::Literal(Loc::new(span, Literal::Boolean(Boolean::True))))
            },
            TokenKind::Keyword(Keyword::False) => {
                self.tokens.advance()?;
                Some(Expr::Literal(Loc::new(span, Literal::Boolean(Boolean::False))))
            },
            TokenKind::Keyword(Keyword::Unknown) => {
                self.tokens.advance()?;
                Some(Expr::Literal(Loc::new(span, Literal::Boolean(Boolean::Unknown))))
            },
            TokenKind::Keyword(Keyword::Date) => self.parse_typed_literal(TypedLiteralKind::Date),
            TokenKind::Keyword(Keyword::Time) => self.parse_typed_literal(TypedLiteralKind::Time),
            TokenKind::Keyword(Keyword::Timestamp) => self.parse_typed_literal(
                TypedLiteralKind::Timestamp,
            ),
            TokenKind::Keyword(Keyword::Case) => {
                self.tokens.advance()?;
                self.parse_case_expr()
            },
            TokenKind::Keyword(Keyword::Array) => {
                self.tokens.advance()?;
                self.eat(TokenKind::LeftBracket)?;
                let items = if self.tokens.current_kind() == Some(TokenKind::RightBracket) {
                    DelimitedList::new()
                } else {
                    self.parse_expr_list1()?
                };
                let _ = self.eat(TokenKind::RightBracket);
                Some(Expr::Array(items))
            },
            TokenKind::Keyword(Keyword::Any) => self.parse_quantified(Quantifier::Any),
            TokenKind::Keyword(Keyword::SomeKw) => self.parse_quantified(Quantifier::SomeOf),
            TokenKind::Keyword(Keyword::All) => self.parse_quantified(Quantifier::All),
            TokenKind::Operator(op) => {
                if op.semantic_tag == OpTag::Exists {
                    self.tokens.advance()?;
                    self.eat(TokenKind::LeftParen)?;
                    let s = self.current_pos();
                    let q = self.parse_query();
                    let query = Box::new(Loc::new(self.span_from(s), q));
                    let _ = self.eat(TokenKind::RightParen);
                    Some(Expr::Exists(query))
                } else if op.semantic_tag == OpTag::Mul {
                    self.parse_name_or_call()
                } else if self.is_prefix_op(op.semantic_tag) {
                    self.parse_unary(op.semantic_tag)
                } else {
                    None
                }
            },
            TokenKind::Identifier | TokenKind::IdentifierQuoted(_) => self.parse_name_or_call(),
            TokenKind::LeftParen => {
                let open_tok = self.tokens.advance()?;
                let open_span = open_tok.span;
                let k = self.tokens.current_kind();
                if k == Some(TokenKind::Keyword(Keyword::Select)) || k == Some(
                    TokenKind::Keyword(Keyword::With),
                ) {
                    let s = self.current_pos();
                    let q = self.parse_query();
                    let query = Loc::new(self.span_from(s), q);
                    let _ = self.eat(TokenKind::RightParen);
                    Some(Expr::Subquery(Box::new(query)))
                } else {
                    let s = self.current_pos();
                    let e = self.parse_expr()?;
                    let expr = Box::new(Loc::new(self.span_from(s), e));
                    let close_span = if self.eat(TokenKind::RightParen).is_some() {
                        match self.tokens.prev() {
                            Some(t) => Some(t.span),
                            None => None,
                        }
                    } else {
                        None
                    };
                    let end_pos = match close_span {
                        Some(c) => c.end,
                        None => expr.span.end,
                    };
                    Some(
                        Expr::Paren(
                            Loc::new(
                                Span::new(open_span.start, end_pos),
                                Paren { open: open_span, expr, close: close_span },
                            ),
                        ),
                    )
                }
            },
            _ => None,
        }
    }

    /// `DATE|TIME|TIMESTAMP 'text'`; the span covers the type keyword.
    pub(crate) fn parse_typed_literal(&mut self, data_type: TypedLiteralKind) -> (res: Option<Expr>)
        requires
            old(self).wf(),
        ensures
            final(self).moved(*old(self)),
            res is Some ==> final(self).at() > old(self).at(),
            res is Some ==> (res matches Some(Expr::Literal(l)) && (l.item matches Literal::TypedString {
                data_type: d,
                ..
            } && d == data_type)),
            ({
                let ts = old(self).toks();
                let p = old(self).at();
                &&& res is Some <==> p < ts.len() && kind_at(ts, p + 1) == Some(TokenKind::Str)
                &&& res is Some ==> (res matches Some(Expr::Literal(l)) && l.item == Literal::TypedString {
                    data_type,
                    value: ts[p + 1].span,
                }) && final(self).at() == p + 2
            }),
    {
        let start = self.current_pos();
        self.tokens.advance()?;
        let end = self.prev_end(start);
        if self.tokens.current_kind()? == TokenKind::Str {
            let tok = self.tokens.advance()?;
            Some(
                Expr::Literal(
                    Loc::new(Span::new(start, end), Literal::TypedString { data_type, value: tok.span }),
                ),
            )
        } else {
            None
        }
    }

    /// `ANY|SOME|ALL (expr)`.
    pub(crate) fn parse_quantified(&mut self, quantifier: Quantifier) -> (res: Option<Expr>)
        requires
            old(self).wf(),
        ensures
            final(self).moved(*old(self)),
            res is Some ==> final(self).at() > old(self).at(),
            res is Some ==> (res matches Some(Expr::Quantified(q)) && q.item.quantifier == quantifier),
            ({
                let ts = old(self).toks();
                let p = old(self).at();
                p < ts.len() && kind_at(ts, p + 1) == Some(TokenKind::LeftParen) && lone_literal_at(ts, p + 2)
                    ==> (res matches Some(Expr::Quantified(q)) && q.item.expr.item == Expr::Literal(
                    Loc { span: ts[p + 2].span, item: literal_token(ts, p + 2)->0 },
                ))
            }),
        decreases old(self).rem(), 7nat,
    {
        let start = self.tokens.current()?.span.start;
        self.tokens.advance()?;
        self.eat(TokenKind::LeftParen)?;
        let s = self.current_pos();
        let e = self.parse_expr()?;
        let inner = Box::new(Loc::new(self.span_from(s), e));
        let _ = self.eat(TokenKind::RightParen);
        let end = self.prev_end(start);
        Some(
            Expr::Quantified(
                Loc::new(Span::new(start, end), Quantified { quantifier, expr: inner }),
            ),
        )
    }

    /// A prefix operator and its operand, parsed at the operator's binding
    /// power.
    pub(crate) fn parse_unary(&mut self, op_tag: OpTag) -> (res: Option<Expr>)
        requires
            old(self).wf(),
        ensures
            final(self).moved(*old(self)),
            res is Some ==> final(self).at() > old(self).at(),
            res is Some ==> (res matches Some(Expr::Unary(u)) && u.item.op_tok.item == op_tag),
            ({
                let ts = old(self).toks();
                let p = old(self).at();
                &&& p < ts.len() && lone_literal_at(ts, p + 1) ==> (res matches Some(Expr::Unary(u))
                    && u.item.expr.item == Expr::Literal(
                    Loc { span: ts[p + 1].span, item: literal_token(ts, p + 1)->0 },
                ))
                &&& res matches Some(Expr::Unary(u)) ==> u.span.start == ts[p].span.start && u.span.end
                    == u.item.expr.span.end && u.item.expr.span.start == spec_current_pos(ts, p + 1) && stops_before(
                    ts,
                    final(self).at(),
                    spec_prefix_binding_power(op_tag),
                )
                &&& p < ts.len() && single_name_at(ts, p + 1) && stops_before(ts, p + 2, spec_prefix_binding_power(op_tag))
                    ==> (res matches Some(e) && is_unary_name_at(e, ts, p, op_tag)) && final(self).at() == p + 2
            }),
        decreases old(self).rem(), 7nat,
    {
        let start_pos = self.tokens.current()?.span.start;
        self.tokens.advance()?;
        let s = self.current_pos();
        let op_tok = Loc::new(self.span_from(s), op_tag);
        let prec = self.prefix_binding_power(op_tag);
        let s = self.current_pos();
        let e = self.parse_expr_prec(prec)?;
        let expr = Box::new(Loc::new(self.span_from(s), e));
        let end_pos = expr.span.end;
        Some(Expr::Unary(Loc::new(Span::new(start_pos, end_pos), Unary { op_tok, expr })))
    }

    /// A name; followed by `(`, a function call with optional `DISTINCT`,
    /// `FILTER (WHERE ..)` and `OVER` window.
    pub(crate) fn parse_name_or_call(&mut self) -> (res: Option<Expr>)
        requires
            old(self).wf(),
        ensures
            final(self).moved(*old(self)),
            res is Some ==> final(self).at() > old(self).at(),
            res is Some ==> is_name_or_call(res->0),
            ({
                let ts = old(self).toks();
                let p = old(self).at();
                &&& !name_part_kind_v1(kind_at(ts, p)) ==> res is None
                &&& name_part_kind_v1(kind_at(ts, p)) && kind_at(ts, p + 1) != Some(TokenKind::Dot) && kind_at(
                    ts,
                    p + 1,
                ) != Some(TokenKind::LeftParen) ==> (res matches Some(e) && is_name_at(e, ts, p)) && final(self).at()
                    == p + 1
                &&& kind_at(ts, p + 1) == Some(TokenKind::LeftParen) && res is Some ==> !(res->0 is Name)
                &&& name_part_kind_v1(kind_at(ts, p)) && kind_at(ts, name_after(ts, p)) != Some(TokenKind::LeftParen) ==> (
                res matches Some(Expr::Name(n)) && qname_at(n, ts, p)) && final(self).at() == name_after(ts, p)
                &&& plain_call_args(ts, p) matches Some(n) ==> (res matches Some(e) && plain_call_is(e, ts, p, n))
                    && final(self).at() == name_after(ts, p) + 2 + n
            }),
        decreases old(self).rem(), 7nat,
    {
        let ns = self.current_pos();
        let qn = self.parse_qname()?;
        let qname = Loc::new(self.span_from(ns), qn);
        if self.tokens.current_kind() != Some(TokenKind::LeftParen) {
            return Some(Expr::Name(qname));
        }
        self.tokens.advance()?;
        let distinct = self.eat_kw(Keyword::Distinct).is_some();
        let start = self.prev_end(0);
        let list = if self.tokens.current_kind() == Some(TokenKind::RightParen) {
            DelimitedList::new()
        } else {
            self.parse_expr_list1()?
        };
        let end = match self.tokens.current() {
            Some(t) => t.span.start,
            None => start,
        };
        let args = Loc::new(Span::new(start, end), list);
        let _ = self.eat(TokenKind::RightParen);
        let filter = if self.tokens.current_kind() == Some(TokenKind::Keyword(Keyword::Filter)) {
            self.tokens.advance()?;
            self.eat(TokenKind::LeftParen)?;
            self.eat_kw(Keyword::Where)?;
            let s = self.current_pos();
            let e = self.parse_expr()?;
            let pred = Loc::new(self.span_from(s), e);
            let _ = self.eat(TokenKind::RightParen);
            Some(Box::new(pred))
        } else {
            None
        };
        if self.tokens.current_kind() == Some(TokenKind::Keyword(Keyword::Over)) {
            self.tokens.advance()?;
            let over = if self.eat(TokenKind::LeftParen).is_some() {
                let s = self.current_pos();
                let sp = self.parse_window_spec()?;
                let spec = Box::new(Loc::new(self.span_from(s), sp));
                let _ = self.eat(TokenKind::RightParen);
                WindowRef::Spec(spec)
            } else {
                let name_ident = match self.tokens.current_kind()? {
                    TokenKind::Identifier | TokenKind::IdentifierQuoted(_) | TokenKind::Keyword(
                        _,
                    ) => {
                        let span = self.tokens.current()?.span;
                        self.tokens.advance()?;
                        span
                    },
                    _ => return None,
                };
                WindowRef::Name(Loc::new(name_ident, name_ident))
            };
            let end_pos = self.prev_end(qname.span.end);
            let start_pos = qname.span.start;
            Some(
                Expr::Over(
                    Loc::new(
                        Span::new(start_pos, end_pos),
                        Over { name: qname, args, over, filter },
                    ),
                ),
            )
        } else {
            let end_pos = self.prev_end(qname.span.end);
            let start_pos = qname.span.start;
            Some(
                Expr::FunctionCall(
                    Loc::new(
                        Span::new(start_pos, end_pos),
                        FunctionCall { name: qname, distinct, args, filter },
                    ),
                ),
            )
        }
    }

    /// The operator at the position and what follows it, with `left` as the
    /// left operand.
    pub(crate) fn parse_infix(&mut self, left: Expr, start_pos: usize, prec: u8) -> (res: Option<Expr>)
        requires
            old(self).wf(),
        ensures
            final(self).moved(*old(self)),
            res is Some ==> final(self).at() > old(self).at(),
            match old(self).kind() {
                Some(TokenKind::Operator(op)) => !(op.semantic_tag == OpTag::Between || op.semantic_tag
                    == OpTag::Like || op.semantic_tag == OpTag::Ilike || op.semantic_tag == OpTag::Similar
                    || op.semantic_tag == OpTag::In || op.semantic_tag == OpTag::Is) ==> (res matches Some(
                    Expr::Binary(b),
                ) && (b.item.op matches Some(o) && o.item == op.semantic_tag)),
                _ => res is None,
            },
            ({
                let ts = old(self).toks();
                let p = old(self).at();
                (kind_at(ts, p) matches Some(TokenKind::Operator(op)) && plain_binary_tag(op.semantic_tag)) && operand_at(
                    ts,
                    p + 1,
                ) && !(kind_at(ts, p + 1) matches Some(TokenKind::Operator(_))) && !(kind_at(ts, p + 2) matches Some(
                    TokenKind::Operator(_),
                )) ==> (res matches Some(Expr::Binary(b)) && b.item.left.item == left && (b.item.op matches Some(o)
                    && o.span == ts[p].span) && (b.item.right matches Some(r) && operand_is(r.item, ts, p + 1)))
                    && final(self).at() == p + 2
            }),
        decreases old(self).rem(), 7nat,
    {
        let op = match self.tokens.current_kind() {
            Some(TokenKind::Operator(op)) => op,
            _ => return None,
        };
        let tag = op.semantic_tag;
        if tag == OpTag::Between {
            self.parse_between_op(left, start_pos)
        } else if tag == OpTag::Like || tag == OpTag::Ilike {
            self.parse_like_op(left, start_pos, tag)
        } else if tag == OpTag::Similar {
            self.parse_similar_op(left, start_pos)
        } else if tag == OpTag::In {
            self.parse_in_op(left, start_pos)
        } else if tag == OpTag::Is {
            self.parse_is_op(left, start_pos)
        } else {
            self.parse_binary_op(left, start_pos, op)
        }
    }

    /// `left op right`; the right operand may be missing.
    pub(crate) fn parse_binary_op(&mut self, left: Expr, start_pos: usize, op: Operator) -> (res: Option<
        Expr,
    >)
        requires
            old(self).wf(),
        ensures
            final(self).moved(*old(self)),
            res is Some ==> final(self).at() > old(self).at(),
            (old(self).kind() matches Some(TokenKind::Operator(t)) && t.semantic_tag == op.semantic_tag) ==> (
            res matches Some(Expr::Binary(b)) && (b.item.op matches Some(o) && o.item == op.semantic_tag)),
            res matches Some(Expr::Binary(b)) ==> b.item.left.item == left && (b.item.op matches Some(o) && o.span
                == old(self).toks()[old(self).at()].span),
            ({
                let ts = old(self).toks();
                let p = old(self).at();
                (kind_at(ts, p) matches Some(TokenKind::Operator(t)) && t.semantic_tag == op.semantic_tag) && operand_at(
                    ts,
                    p + 1,
                ) && !(kind_at(ts, p + 1) matches Some(TokenKind::Operator(_))) && !(kind_at(ts, p + 2) matches Some(
                    TokenKind::Operator(_),
                )) ==> (res matches Some(Expr::Binary(b)) && (b.item.right matches Some(r) && operand_is(r.item, ts, p + 1)))
                    && final(self).at() == p + 2
            }),
        decreases old(self).rem(), 6nat,
    {
        let op_tag = op.semantic_tag;
        let op_tok = self.eat_op_tag(op_tag)?;
        let op_span = op_tok.span;
        let right_prec = match op.assoc {
            Assoc::Right => op.precedence,
            _ => if op.precedence < 255 {
                op.precedence + 1
            } else {
                255
            },
        };
        let s = self.current_pos();
        let right = match self.parse_expr_prec(right_prec) {
            Some(e) => Some(Box::new(Loc::new(self.span_from(s), e))),
            None => None,
        };
        let end_pos = self.prev_end(start_pos);
        Some(
            Expr::Binary(
                Loc::new(
                    Span::new(start_pos, end_pos),
                    Binary {
                        left: Box::new(Loc::new(Span::new(start_pos, end_pos), left)),
                        op: Some(Loc::new(op_span, op_tag)),
                        right,
                    },
                ),
            ),
        )
    }

    /// `left BETWEEN low AND high`; with a bound missing, a binary node with
    /// no right operand.
    pub(crate) fn parse_between_op(&mut self, left: Expr, start_pos: usize) -> (res: Option<Expr>)
        requires
            old(self).wf(),
        ensures
            final(self).moved(*old(self)),
            res is Some ==> final(self).at() > old(self).at(),
            res is Some <==> op_at(old(self).toks(), old(self).at(), OpTag::Between),
            res matches Some(e) ==> (e matches Expr::Between(b) && !b.item.not) || (e matches Expr::Binary(b) && (
            b.item.op matches Some(o) && o.item == OpTag::Between) && b.item.right is None),
            ({
                let ts = old(self).toks();
                let p = old(self).at();
                op_at(ts, p, OpTag::Between) && lone_literal_at(ts, p + 1) && op_at(ts, p + 2, OpTag::And)
                    && lone_literal_at(ts, p + 3) ==> (res matches Some(Expr::Between(b)) && b.item.low.item
                    == Expr::Literal(Loc { span: ts[p + 1].span, item: literal_token(ts, p + 1)->0 })
                    && b.item.high.item == Expr::Literal(
                    Loc { span: ts[p + 3].span, item: literal_token(ts, p + 3)->0 },
                ))
            }),
        decreases old(self).rem(), 6nat,
    {
        let between_span = self.eat_op_tag(OpTag::Between)?.span;
        let s = self.current_pos();
        let low_opt = match self.parse_expr_prec(10) {
            Some(e) => Some(Loc::new(self.span_from(s), e)),
            None => None,
        };
        if self.tokens.current_operator_tag() == Some(OpTag::And) {
            let _ = self.tokens.advance();
        }
        let s = self.current_pos();
        let high_opt = match self.parse_expr_prec(10) {
            Some(e) => Some(Loc::new(self.span_from(s), e)),
            None => None,
        };
        let end_pos = self.prev_end(start_pos);
        let span = Span::new(start_pos, end_pos);
        match (low_opt, high_opt) {
            (Some(low), Some(high)) => Some(
                Expr::Between(
                    Loc::new(
                        span,
                        Between {
                            expr: Box::new(Loc::new(span, left)),
                            low: Box::new(low),
                            high: Box::new(high),
                            not: false,
                        },
                    ),
                ),
            ),
            _ => Some(
                Expr::Binary(
                    Loc::new(
                        span,
                        Binary {
                            left: Box::new(Loc::new(span, left)),
                            op: Some(Loc::new(between_span, OpTag::Between)),
                            right: None,
                        },
                    ),
                ),
            ),
        }
    }

    /// `left LIKE|ILIKE pattern`.
    pub(crate) fn parse_like_op(&mut self, left: Expr, start_pos: usize, op_tag: OpTag) -> (res: Option<Expr>)
        requires
            old(self).wf(),
        ensures
            final(self).moved(*old(self)),
            res is Some ==> final(self).at() > old(self).at(),
            !op_at(old(self).toks(), old(self).at(), op_tag) ==> res is None,
            res matches Some(e) ==> (if op_tag == OpTag::Like {
                e matches Expr::Like(l) && !l.item.not
            } else {
                e matches Expr::ILike(l) && !l.item.not
            }),
            op_at(old(self).toks(), old(self).at(), op_tag) && lone_literal_at(old(self).toks(), old(self).at() + 1)
                ==> res is Some,
        decreases old(self).rem(), 6nat,
    {
        self.eat_op_tag(op_tag)?;
        let s = self.current_pos();
        let p = self.parse_expr_prec(10)?;
        let pattern = Box::new(Loc::new(self.span_from(s), p));
        let end_pos = self.prev_end(start_pos);
        let span = Span::new(start_pos, end_pos);
        let expr = Box::new(Loc::new(span, left));
        let like = Like { expr, pattern, not: false };
        if op_tag == OpTag::Like {
            Some(Expr::Like(Loc::new(span, like)))
        } else {
            Some(Expr::ILike(Loc::new(span, like)))
        }
    }

    /// `left SIMILAR TO pattern [ESCAPE escape]`.
    pub(crate) fn parse_similar_op(&mut self, left: Expr, start_pos: usize) -> (res: Option<Expr>)
        requires
            old(self).wf(),
        ensures
            final(self).moved(*old(self)),
            res is Some ==> final(self).at() > old(self).at(),
            ({
                let ts = old(self).toks();
                let p = old(self).at();
                &&& !(op_at(ts, p, OpTag::Similar) && kw_at(ts, p + 1, Keyword::To)) ==> res is None
                &&& res is Some ==> res->0 is Similar
                &&& op_at(ts, p, OpTag::Similar) && kw_at(ts, p + 1, Keyword::To) && lone_literal_at(ts, p + 2)
                    && !kw_at(ts, p + 3, Keyword::Escape) ==> (res matches Some(Expr::Similar(x))
                    && x.item.escape is None)
            }),
        decreases old(self).rem(), 6nat,
    {
        self.eat_op_tag(OpTag::Similar)?;
        self.eat_kw(Keyword::To)?;
        let s = self.current_pos();
        let p = self.parse_expr_prec(10)?;
        let pattern = Box::new(Loc::new(self.span_from(s), p));
        let escape = if self.eat_kw(Keyword::Escape).is_some() {
            let s = self.current_pos();
            let e = self.parse_expr_prec(10)?;
            Some(Box::new(Loc::new(self.span_from(s), e)))
        } else {
            None
        };
        let end_pos = self.prev_end(start_pos);
        let span = Span::new(start_pos, end_pos);
        Some(
            Expr::Similar(
                Loc::new(
                    span,
                    Similar { expr: Box::new(Loc::new(span, left)), pattern, escape },
                ),
            ),
        )
    }

    /// `left IN (subquery)` or `left IN (exprs)`.
    pub(crate) fn parse_in_op(&mut self, left: Expr, start_pos: usize) -> (res: Option<Expr>)
        requires
            old(self).wf(),
        ensures
            final(self).moved(*old(self)),
            res is Some ==> final(self).at() > old(self).at(),
            ({
                let ts = old(self).toks();
                let p = old(self).at();
                &&& !(op_at(ts, p, OpTag::In) && kind_at(ts, p + 1) == Some(TokenKind::LeftParen)) ==> res is None
                &&& res is Some ==> (res matches Some(Expr::In(i)) && !i.item.not)
                &&& op_at(ts, p, OpTag::In) && kind_at(ts, p + 1) == Some(TokenKind::LeftParen) && (kw_at(
                    ts,
                    p + 2,
                    Keyword::Select,
                ) || kw_at(ts, p + 2, Keyword::With)) ==> (res matches Some(Expr::In(i))
                    && i.item.list is Subquery)
                &&& op_at(ts, p, OpTag::In) && kind_at(ts, p + 1) == Some(TokenKind::LeftParen) && kind_at(ts, p + 2)
                    == Some(TokenKind::RightParen) ==> (res matches Some(Expr::In(i)) && (
                i.item.list matches ExprList::Exprs(v) && v@.len() == 0))
            }),
        decreases old(self).rem(), 6nat,
    {
        self.eat_op_tag(OpTag::In)?;
        self.eat(TokenKind::LeftParen)?;
        let k = self.tokens.current_kind();
        let list = if k == Some(TokenKind::Keyword(Keyword::Select)) || k == Some(
            TokenKind::Keyword(Keyword::With),
        ) {
            let s = self.current_pos();
            let q = self.parse_query();
            ExprList::Subquery(Box::new(Loc::new(self.span_from(s), q)))
        } else {
            let exprs = if self.tokens.current_kind() == Some(TokenKind::RightParen) {
                Vec::new()
            } else {
                self.parse_expr_list1()?.items
            };
            ExprList::Exprs(exprs)
        };
        let _ = self.eat(TokenKind::RightParen);
        let end_pos = self.prev_end(start_pos);
        let span = Span::new(start_pos, end_pos);
        Some(
            Expr::In(
                Loc::new(span, In { expr: Box::new(Loc::new(span, left)), list, not: false }),
            ),
        )
    }

    /// `left IS [NOT] NULL`.
    pub(crate) fn parse_is_op(&mut self, left: Expr, start_pos: usize) -> (res: Option<Expr>)
        requires
            old(self).wf(),
        ensures
            final(self).moved(*old(self)),
            res is Some ==> final(self).at() > old(self).at(),
            ({
                let ts = old(self).toks();
                let p = old(self).at();
                let not = op_at(ts, p + 1, OpTag::Not);
                let n = if not { p + 2 } else { p + 1 };
                &&& res is Some <==> op_at(ts, p, OpTag::Is) && kw_at(ts, n, Keyword::Null)
                &&& res is Some ==> (res matches Some(Expr::IsNull(x)) && x.item.not == not)
            }),
    {
        self.eat_op_tag(OpTag::Is)?;
        let not = if self.tokens.current_operator_tag() == Some(OpTag::Not) {
            let _ = self.tokens.advance();
            true
        } else {
            false
        };
        self.eat_kw(Keyword::Null)?;
        let end_pos = self.prev_end(start_pos);
        let span = Span::new(start_pos, end_pos);
        Some(Expr::IsNull(Loc::new(span, IsNull { expr: Box::new(Loc::new(span, left)), not })))
    }

    /// After `CASE`: `[operand] WHEN .. THEN .. ... [ELSE ..] END`.
    pub(crate) fn parse_case_expr(&mut self) -> (res: Option<Expr>)
        requires
            old(self).wf(),
        ensures
            final(self).moved(*old(self)),
            res is Some ==> final(self).at() > old(self).at(),
            res is Some ==> res->0 is Case,
            res matches Some(Expr::Case(c)) ==> (c.item.operand is None) == kw_at(old(self).toks(), old(self).at(), Keyword::When),
            single_when_case(old(self).toks(), old(self).at()) ==> (res matches Some(Expr::Case(c)) && c.item.operand is None
                && c.item.when_clauses@.len() == 1 && c.item.else_clause is None && c.item.when_clauses@[0].when.item
                == literal_expr_at(old(self).toks(), old(self).at() + 1) && branch_result(c.item.when_clauses@[0])
                == literal_expr_at(old(self).toks(), old(self).at() + 3)) && final(self).at() == old(self).at() + 5,
        decreases old(self).rem(), 12nat,
    {
        let ghost p0 = self.at();
        let start_pos = match self.tokens.prev() {
            Some(t) => t.span.start,
            None => 0,
        };
        let operand = if self.tokens.current_kind() != Some(TokenKind::Keyword(Keyword::When)) {
            let s = self.current_pos();
            let e = self.parse_expr()?;
            Some(Box::new(Loc::new(self.span_from(s), e)))
        } else {
            None
        };
        let mut when_clauses: Vec<WhenClause> = Vec::new();
        loop
            invariant
                self.moved(*old(self)),
                p0 == old(self).at(),
                (operand is None) == kw_at(old(self).toks(), p0, Keyword::When),
                single_when_case(old(self).toks(), p0) ==> (when_clauses@.len() == 0 && self.at() == p0) || (
                when_clauses@.len() == 1 && self.at() == p0 + 4 && when_clauses@[0].when.item == literal_expr_at(
                    old(self).toks(),
                    p0 + 1,
                ) && branch_result(when_clauses@[0]) == literal_expr_at(old(self).toks(), p0 + 3)),
            ensures
                self.moved(*old(self)),
                (operand is None) == kw_at(old(self).toks(), p0, Keyword::When),
                single_when_case(old(self).toks(), p0) ==> when_clauses@.len() == 1 && self.at() == p0 + 4
                    && when_clauses@[0].when.item == literal_expr_at(old(self).toks(), p0 + 1)
                    && branch_result(when_clauses@[0]) == literal_expr_at(old(self).toks(), p0 + 3),
            decreases self.rem(),
        {
            if self.eat_kw(Keyword::When).is_none() {
                break;
            }
            let s = self.current_pos();
            let w = self.parse_expr()?;
            let when = Loc::new(self.span_from(s), w);
            self.eat_kw(Keyword::Then)?;
            let s = self.current_pos();
            let t = self.parse_expr()?;
            let then = Loc::new(self.span_from(s), t);
            when_clauses.push(WhenClause { when, then });
        }
        let else_clause = if self.eat_kw(Keyword::Else).is_some() {
            let s = self.current_pos();
            let e = self.parse_expr()?;
            Some(Box::new(Loc::new(self.span_from(s), e)))
        } else {
            None
        };
        self.eat_kw(Keyword::End)?;
        let end_pos = self.prev_end(start_pos);
        Some(
            Expr::Case(
                Loc::new(
                    Span::new(start_pos, end_pos),
                    Case { operand, when_clauses, else_clause },
                ),
            ),
        )
    }

    /// The binding power of the operator at the position.
    pub(crate) fn infix_binding_power(&self) -> (res: Option<u8>)
        requires
            self.wf(),
        ensures
            res == (match self.kind() {
                Some(TokenKind::Operator(op)) => Some(op.precedence),
                _ => None::<u8>,
            }),
    {
        match self.tokens.current_kind() {
            Some(TokenKind::Operator(op)) => Some(op.precedence),
            _ => None,
        }
    }

    pub(crate) fn prefix_binding_power(&self, op: OpTag) -> (res: u8)
        ensures
            res == spec_prefix_binding_power(op),
    {
        match op {
            OpTag::Not => 20,
            _ => 50,
        }
    }

    pub(crate) fn is_prefix_op(&self, op: OpTag) -> (res: bool)
        ensures
            res == spec_is_prefix_op(op),
    {
        match op {
            OpTag::Not | OpTag::Sub | OpTag::Add | OpTag::BitAnd | OpTag::BitOr | OpTag::BitXor => true,
            _ => false,
        }
    }
}

} // verus!
