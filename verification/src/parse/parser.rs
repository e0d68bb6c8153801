//! A recursive-descent parser over a token tape. It is tolerant: a missing
//! closing token is skipped over, and a query whose parts cannot be read is
//! still returned with what could be read.
use vstd::prelude::*;

use crate::ast::{Projection, Where, Cte, CteMaterialization, DelimitedList, Expr, FrameBound, FrameUnit, FromClause, FunctionTableFactor, GroupBy, GroupByItem, Join, JoinBase, JoinConstraint, JoinKind, Limit, LimitKind, NamePart, NamedTableFactor, Offset, OrderBy, OrderByItem, ProjectionItem, QualifiedName, Query, QueryExpr, QueryPrimary, QuerySuffix, Select, SetOp, SetOpTerm, SetQuantifier, SortDirection, SpannedStr, Statement, SubqueryTableFactor, TableFactor, TableRef, Window, WindowDef, WindowFrame, WindowSpec, With};
use crate::lex::tape::kind_at;
use crate::lex::{Keyword, OpTag, Token, TokenKind, TokenTape};
use crate::parse::is_select_query;
use crate::parse::expr::{is_name_at, kw_at, lone_literal_at, op_at, single_name_at, stops_before};
use crate::parse::literal_token;
use crate::span::{Loc, Span};
use crate::parse::v2::{
    delete_ok_at, dml_keyword_at, insert_ok_at, is_simple_delete, is_simple_insert, is_simple_update, simple_delete_at,
    simple_insert_at, simple_update_at, update_ok_at, WinnowParser,
};

verus! {

/// A parser: a tape over the tokens of one input.
#[derive(Debug)]
pub struct Parser<'a> {
    pub tokens: TokenTape<'a>,
}

/// Whether a statement starting at `p` is too short to tell what it is: no
/// token, the end of input, or one identifier just before the end of input.
pub open spec fn is_partial_at(ts: Seq<Token>, p: int) -> bool {
    ||| p >= ts.len()
    ||| kind_at(ts, p) == Some(TokenKind::Eof)
    ||| kind_at(ts, p) == Some(TokenKind::Identifier) && kind_at(ts, p + 1) == Some(TokenKind::Eof)
}

/// Whether a token of this kind can be part of a name: an identifier,
/// quoted or not, `*`, or a keyword that is not reserved.
pub open spec fn name_part_kind_v1(k: Option<TokenKind>) -> bool {
    match k {
        Some(TokenKind::Identifier) | Some(TokenKind::IdentifierQuoted(_)) => true,
        Some(TokenKind::Operator(op)) => op.semantic_tag == OpTag::Mul,
        Some(TokenKind::Keyword(k)) => !spec_is_reserved(k),
        _ => false,
    }
}

/// The name part the token at `p` stands for: `*`, or the token's span.
pub open spec fn name_part_at(ts: Seq<Token>, p: int) -> NamePart {
    if kind_at(ts, p) matches Some(TokenKind::Operator(op)) && op.semantic_tag == OpTag::Mul {
        NamePart::Star
    } else {
        NamePart::Ident(ts[p].span)
    }
}

/// Where a dotted name ends, read from `p` just past one of its parts: past
/// each `.` and the part after it, and past a last `.` with no part after it.
pub open spec fn name_end(ts: Seq<Token>, p: int) -> int
    decreases ts.len() - p,
{
    if 0 <= p && kind_at(ts, p) == Some(TokenKind::Dot) {
        if name_part_kind_v1(kind_at(ts, p + 1)) {
            name_end(ts, p + 2)
        } else {
            p + 1
        }
    } else {
        p
    }
}

/// How many more parts a dotted name has, read from `p` just past one of
/// its parts.
pub open spec fn name_tail_count(ts: Seq<Token>, p: int) -> nat
    decreases ts.len() - p,
{
    if 0 <= p && kind_at(ts, p) == Some(TokenKind::Dot) && name_part_kind_v1(kind_at(ts, p + 1)) {
        1 + name_tail_count(ts, p + 2)
    } else {
        0
    }
}

/// The list holds the dotted name that starts at `p`: the part at `p`, then
/// each part after a `.`, each with its token's span, and each `.` read.
pub open spec fn name_parts_at(l: DelimitedList<Loc<NamePart>>, ts: Seq<Token>, p: int) -> bool {
    &&& l.items@.len() == 1 + name_tail_count(ts, p + 1)
    &&& forall|i: int| 0 <= i < l.items@.len() ==> (#[trigger] l.items@[i]).item == name_part_at(ts, p + 2 * i)
        && l.items@[i].span == ts[p + 2 * i].span
    &&& l.seps@.len() == (name_end(ts, p + 1) - p) / 2
    &&& forall|i: int| 0 <= i < l.seps@.len() ==> (#[trigger] l.seps@[i]).item == TokenKind::Dot
        && l.seps@[i].span == ts[p + 2 * i + 1].span
}

/// The name is the dotted name that starts at `q`, with the span from its
/// first token to its last.
pub open spec fn qname_at(name: Loc<QualifiedName>, ts: Seq<Token>, q: int) -> bool {
    &&& name_parts_at(name.item.parts, ts, q)
    &&& name.span.start == spec_current_pos(ts, q)
    &&& name.span.end == spec_prev_end(ts, name_end(ts, q + 1), name.span.start)
}

/// A named table at `q`: a dotted name that no `(` follows, not after
/// `LATERAL`, then an alias that ends in a settled place.
pub open spec fn named_factor_at(ts: Seq<Token>, q: int) -> bool {
    let e = name_end(ts, q + 1);
    &&& kind_at(ts, q) != Some(TokenKind::Keyword(Keyword::Lateral))
    &&& name_part_kind_v1(kind_at(ts, q))
    &&& kind_at(ts, e) != Some(TokenKind::LeftParen)
    &&& alias_settled(ts, e)
}

/// Where the named table at `q` ends: past its name and its alias.
pub open spec fn named_factor_end(ts: Seq<Token>, q: int) -> int {
    let e = name_end(ts, q + 1);
    e + alias_len(ts, e)
}

/// The table source is the named table at `q`: its name, its alias, and
/// its span.
pub open spec fn named_factor_is(r: TableRef, ts: Seq<Token>, q: int) -> bool {
    let e = name_end(ts, q + 1);
    r matches TableRef::Factor(f) && f.item matches TableFactor::Named(n) && {
        &&& !n.item.lateral
        &&& qname_at(n.item.name, ts, q)
        &&& alias_of(n.item.alias) == alias_at(ts, e)
        &&& f.span.start == spec_current_pos(ts, q)
        &&& f.span.end == spec_prev_end(ts, named_factor_end(ts, q), f.span.start)
        &&& n.span == f.span
    }
}

/// How many tokens the join condition at `f` takes: `ON` and a literal,
/// `USING (column)`, or none where neither keyword stands there.
pub open spec fn constraint_len(ts: Seq<Token>, f: int) -> int {
    if kw_at(ts, f, Keyword::On) {
        2
    } else if kw_at(ts, f, Keyword::Using) {
        4
    } else {
        0
    }
}

/// The join condition at `f` is `ON` and a literal that nothing extends,
/// `USING (column)`, or absent.
pub open spec fn constraint_ok(ts: Seq<Token>, f: int) -> bool {
    &&& kw_at(ts, f, Keyword::On) ==> lone_literal_at(ts, f + 1) && crate::parse::v2::lone_literal(ts, f + 1)
    &&& kw_at(ts, f, Keyword::Using) ==> kind_at(ts, f + 1) == Some(TokenKind::LeftParen) && ident_kind(
        kind_at(ts, f + 2),
    ) && kind_at(ts, f + 3) == Some(TokenKind::RightParen)
}

/// The condition read at `f`: that literal after `ON`, that one column after
/// `USING`, or none.
pub open spec fn constraint_is(c: Option<Loc<JoinConstraint>>, ts: Seq<Token>, f: int) -> bool {
    if kw_at(ts, f, Keyword::On) {
        c matches Some(x) && x.item matches JoinConstraint::On(e) && e.item == literal_expr_at(ts, f + 1)
            && x.span.start == spec_current_pos(ts, f) && x.span.end == ts[f + 1].span.end
    } else if kw_at(ts, f, Keyword::Using) {
        c matches Some(x) && x.item matches JoinConstraint::Using(cols) && cols.items@.len() == 1
            && cols.items@[0].item == ts[f + 2].span && x.span.start == spec_current_pos(ts, f) && x.span.end
            == ts[f + 3].span.end
    } else {
        c is None
    }
}

/// A join at `e` that can be read whole: its keywords, a named table, and
/// a condition.
pub open spec fn join_step_ok(ts: Seq<Token>, e: int) -> bool {
    spec_join_kind(ts, e) matches Some((k, n)) && named_factor_at(ts, e + n) && constraint_ok(
        ts,
        named_factor_end(ts, e + n),
    )
}

/// Where the join at `e` ends.
pub open spec fn join_step_end(ts: Seq<Token>, e: int) -> int {
    let (k, n) = spec_join_kind(ts, e)->0;
    let f = named_factor_end(ts, e + n);
    f + constraint_len(ts, f)
}

/// Where the `i`-th join after `e` starts.
pub open spec fn chain_pos(ts: Seq<Token>, e: int, i: nat) -> int
    decreases i,
{
    if i == 0 {
        e
    } else {
        join_step_end(ts, chain_pos(ts, e, (i - 1) as nat))
    }
}

/// No keyword that starts a join stands at `e`.
pub open spec fn no_join_at(ts: Seq<Token>, e: int) -> bool {
    &&& !kw_at(ts, e, Keyword::Natural)
    &&& !kw_at(ts, e, Keyword::Inner)
    &&& !kw_at(ts, e, Keyword::Left)
    &&& !kw_at(ts, e, Keyword::Right)
    &&& !kw_at(ts, e, Keyword::Full)
    &&& !kw_at(ts, e, Keyword::Cross)
    &&& !kw_at(ts, e, Keyword::Join)
}

/// From `e`, exactly `m` joins that can be read whole, then no join.
pub open spec fn join_chain(ts: Seq<Token>, e: int, m: nat) -> bool {
    &&& forall|i: nat| i < m ==> join_step_ok(ts, #[trigger] chain_pos(ts, e, i))
    &&& no_join_at(ts, chain_pos(ts, e, m))
}

/// The table source is the named table at `p` joined, left to right, with
/// the tables of the first `i` joins after it, each with its kind and
/// condition.
pub open spec fn join_tree_is(r: TableRef, ts: Seq<Token>, p: int, i: nat) -> bool
    decreases i,
{
    let e0 = named_factor_end(ts, p);
    if i == 0 {
        named_factor_is(r, ts, p)
    } else {
        let e = chain_pos(ts, e0, (i - 1) as nat);
        let (k, n) = spec_join_kind(ts, e)->0;
        let q = e + n;
        let end = spec_prev_end(ts, chain_pos(ts, e0, i), spec_current_pos(ts, q) as usize);
        r matches TableRef::Join(j) && {
            &&& j.item.kind == k
            &&& join_tree_is(j.item.left.item, ts, p, (i - 1) as nat)
            &&& named_factor_is(j.item.right.item, ts, q)
            &&& constraint_is(j.item.constraint, ts, named_factor_end(ts, q))
            &&& j.span.start == spec_current_pos(ts, p) && j.span.end == end
            &&& j.item.left.span == j.span
            &&& j.item.right.span.start == spec_current_pos(ts, q) && j.item.right.span.end == end
        }
    }
}

/// A select item at `e` that can be read whole: a literal or a one-part
/// name that nothing extends, then an alias that ends in a settled place.
pub open spec fn item_ok(ts: Seq<Token>, e: int) -> bool {
    &&& simple_item_at(ts, e)
    &&& alias_settled(ts, e + 1)
    &&& lone_literal_at(ts, e) ==> crate::parse::v2::lone_literal(ts, e)
    &&& !lone_literal_at(ts, e) ==> crate::parse::v2::name_before(ts, e, 0)
}

/// Where the select item at `e` ends: past its alias.
pub open spec fn item_end(ts: Seq<Token>, e: int) -> int {
    e + 1 + alias_len(ts, e + 1)
}

/// Where the `i`-th item of a list that starts at `s` starts.
pub open spec fn item_pos(ts: Seq<Token>, s: int, i: nat) -> int
    decreases i,
{
    if i == 0 {
        s
    } else {
        item_end(ts, item_pos(ts, s, (i - 1) as nat)) + 1
    }
}

/// From `s`, exactly `m` select items that can be read whole, a comma after
/// each but the last, and none after the last.
pub open spec fn item_list(ts: Seq<Token>, s: int, m: nat) -> bool {
    &&& m >= 1
    &&& forall|i: nat| i < m ==> item_ok(ts, #[trigger] item_pos(ts, s, i))
    &&& forall|i: nat| i + 1 < m ==> kind_at(ts, item_end(ts, #[trigger] item_pos(ts, s, i))) == Some(
        TokenKind::Comma,
    )
    &&& kind_at(ts, item_end(ts, item_pos(ts, s, (m - 1) as nat))) != Some(TokenKind::Comma)
}

/// The first `n` items are those of the list at `s`: each its expression
/// and its alias.
pub open spec fn items_are(l: DelimitedList<Loc<ProjectionItem>>, ts: Seq<Token>, s: int, n: nat) -> bool {
    &&& l.items@.len() == n
    &&& forall|i: int|
        0 <= i < n ==> simple_item_is((#[trigger] l.items@[i]).item.expr.item, ts, item_pos(ts, s, i as nat))
            && alias_of(l.items@[i].item.alias) == alias_at(ts, item_pos(ts, s, i as nat) + 1)
}

/// How many items the list at `s` has.
pub open spec fn item_count(ts: Seq<Token>, s: int) -> nat {
    choose|m: nat| #[trigger] item_list(ts, s, m)
}

/// Where the list at `s` ends.
pub open spec fn items_end(ts: Seq<Token>, s: int) -> int {
    item_end(ts, item_pos(ts, s, (item_count(ts, s) - 1) as nat))
}

/// `SELECT items FROM table [joins]` at `p`, then a list-ending token: each
/// item a literal or a one-part name with an optional alias, the table a
/// named table, each join one with a named table and a condition of `ON`
/// and a literal or `USING` one column.
pub open spec fn list_select_at(ts: Seq<Token>, p: int) -> bool {
    let f = items_end(ts, p + 1);
    &&& kw_at(ts, p, Keyword::Select)
    &&& exists|m: nat| #[trigger] item_list(ts, p + 1, m)
    &&& kw_at(ts, f, Keyword::From)
    &&& table_chain_at(ts, f + 1)
    &&& closer_kind(kind_at(ts, table_chain_end(ts, f + 1)))
}

/// A token after which a select reads no further clause: not a comma, and
/// not `WHERE`, `GROUP`, `HAVING` or `WINDOW`.
pub open spec fn select_stop_at(ts: Seq<Token>, e: int) -> bool {
    &&& kind_at(ts, e) != Some(TokenKind::Comma)
    &&& !kw_at(ts, e, Keyword::Where)
    &&& !kw_at(ts, e, Keyword::Group)
    &&& !kw_at(ts, e, Keyword::Having)
    &&& !kw_at(ts, e, Keyword::Window)
}

/// `SELECT items FROM table [joins]` at `p`, read as in [`list_select_at`],
/// followed by a token that starts no further clause of the select.
pub open spec fn list_core_at(ts: Seq<Token>, p: int) -> bool {
    let f = items_end(ts, p + 1);
    &&& kw_at(ts, p, Keyword::Select)
    &&& exists|m: nat| #[trigger] item_list(ts, p + 1, m)
    &&& kw_at(ts, f, Keyword::From)
    &&& table_chain_at(ts, f + 1)
    &&& select_stop_at(ts, table_chain_end(ts, f + 1))
}

/// Where the select after the set operation at `e` starts: past the
/// operation and an optional `ALL`.
pub open spec fn set_op_right(ts: Seq<Token>, e: int) -> int {
    e + 1 + (if kw_at(ts, e + 1, Keyword::All) { 1int } else { 0int })
}

/// Two list selects joined by one set operation at `p`, then a list-ending
/// token.
pub open spec fn union_select_at(ts: Seq<Token>, p: int) -> bool {
    let e = list_select_end(ts, p);
    &&& list_core_at(ts, p)
    &&& spec_set_op(ts, e) is Some
    &&& list_select_at(ts, set_op_right(ts, e))
}

/// The query is the two list selects at `p` and the set operation between
/// them, and nothing more.
pub open spec fn union_select_query(q: Query, ts: Seq<Token>, p: int) -> bool {
    let e = list_select_end(ts, p);
    &&& q.with is None
    &&& q.tail is None
    &&& q.body matches Some(b) && b.item.set_ops@.len() == 1 && (b.item.left.item matches QueryPrimary::Select(sel)
        && is_list_select(sel.item, ts, p)) && b.item.set_ops@[0].item.op == spec_set_op(ts, e)->0 && (
    b.item.set_ops@[0].item.right.item matches QueryPrimary::Select(r) && is_list_select(
        r.item,
        ts,
        set_op_right(ts, e),
    ))
}

/// The sort direction a keyword at `d` gives, where it gives one.
pub open spec fn direction_at(ts: Seq<Token>, d: int) -> Option<SortDirection> {
    if kw_at(ts, d, Keyword::Asc) {
        Some(SortDirection::Asc)
    } else if kw_at(ts, d, Keyword::Desc) {
        Some(SortDirection::Desc)
    } else {
        None
    }
}

/// Where an `ORDER BY` of one item at `e` ends: past `ORDER BY`, the item
/// and an optional `ASC` or `DESC`; `e` itself where `ORDER` is not there.
pub open spec fn order_end(ts: Seq<Token>, e: int) -> int {
    if kw_at(ts, e, Keyword::Order) {
        e + 3 + (if direction_at(ts, e + 3) is Some { 1int } else { 0int })
    } else {
        e
    }
}

/// An `ORDER BY` at `e` is of one item, a literal or a one-part name that
/// nothing extends.
pub open spec fn order_ok(ts: Seq<Token>, e: int) -> bool {
    kw_at(ts, e, Keyword::Order) ==> kw_at(ts, e + 1, Keyword::By) && simple_item_at(ts, e + 2) && kind_at(
        ts,
        order_end(ts, e),
    ) != Some(TokenKind::Comma) && (lone_literal_at(ts, e + 2) ==> crate::parse::v2::lone_literal(ts, e + 2)) && (
    !lone_literal_at(ts, e + 2) ==> crate::parse::v2::name_before(ts, e + 2, 0))
}

/// Where a `LIMIT` and a literal at `o` end; `o` itself where `LIMIT` is not
/// there.
pub open spec fn limit_end(ts: Seq<Token>, o: int) -> int {
    if kw_at(ts, o, Keyword::Limit) {
        o + 2
    } else {
        o
    }
}

/// `[ORDER BY item [ASC|DESC]] [LIMIT literal]` at `e`, at least one of them,
/// then a list-ending token.
pub open spec fn tail_shape_at(ts: Seq<Token>, e: int) -> bool {
    let o = order_end(ts, e);
    &&& kw_at(ts, e, Keyword::Order) || kw_at(ts, e, Keyword::Limit)
    &&& order_ok(ts, e)
    &&& kw_at(ts, o, Keyword::Limit) ==> lone_literal_at(ts, o + 1) && crate::parse::v2::lone_literal(ts, o + 1)
    &&& closer_kind(kind_at(ts, limit_end(ts, o)))
}

/// The `ORDER BY` read at `e`: its one item, direction and no `NULLS`.
pub open spec fn order_is(ob: OrderBy, ts: Seq<Token>, e: int) -> bool {
    &&& ob.items.items@.len() == 1
    &&& simple_item_is(ob.items.items@[0].item.expr.item, ts, e + 2)
    &&& ob.items.items@[0].item.direction == direction_at(ts, e + 3)
    &&& ob.items.items@[0].item.nulls is None
}

/// The suffix read from the tail at `e`: the `ORDER BY` and `LIMIT` where
/// they are there, and no `OFFSET`.
pub open spec fn tail_is(t: QuerySuffix, ts: Seq<Token>, e: int) -> bool {
    let o = order_end(ts, e);
    &&& kw_at(ts, e, Keyword::Order) ==> (t.order_by matches Some(ob) && order_is(ob.item, ts, e))
    &&& !kw_at(ts, e, Keyword::Order) ==> t.order_by is None
    &&& kw_at(ts, o, Keyword::Limit) ==> (t.limit matches Some(li) && li.item.style == LimitKind::Limit
        && li.item.count.item == literal_expr_at(ts, o + 1))
    &&& !kw_at(ts, o, Keyword::Limit) ==> t.limit is None
    &&& t.offset is None
}

/// A list select at `p` followed by a tail of `ORDER BY` and `LIMIT`.
pub open spec fn tail_select_at(ts: Seq<Token>, p: int) -> bool {
    &&& list_core_at(ts, p)
    &&& tail_shape_at(ts, list_select_end(ts, p))
}

/// The query is the list select at `p` with its tail, and nothing more.
pub open spec fn tail_select_query(q: Query, ts: Seq<Token>, p: int) -> bool {
    &&& q.with is None
    &&& q.body matches Some(b) && b.item.set_ops@.len() == 0 && (b.item.left.item matches QueryPrimary::Select(sel)
        && is_list_select(sel.item, ts, p))
    &&& q.tail matches Some(t) && tail_is(t.item, ts, list_select_end(ts, p))
}

/// `WITH [RECURSIVE] name AS (list select)` at `p`, followed by no comma:
/// one definition whose query is a list select.
pub open spec fn single_cte_at(ts: Seq<Token>, p: int) -> bool {
    let q = with_body_start(ts, p);
    let r = list_select_end(ts, q + 3);
    &&& kw_at(ts, p, Keyword::With)
    &&& ident_kind(kind_at(ts, q))
    &&& kw_at(ts, q + 1, Keyword::As)
    &&& kind_at(ts, q + 2) == Some(TokenKind::LeftParen)
    &&& list_select_at(ts, q + 3)
    &&& kind_at(ts, r) == Some(TokenKind::RightParen)
    &&& kind_at(ts, r + 1) != Some(TokenKind::Comma)
}

/// Where the single definition at `p` ends: past its `)`.
pub open spec fn cte_end(ts: Seq<Token>, p: int) -> int {
    list_select_end(ts, with_body_start(ts, p) + 3) + 1
}

/// The `WITH` read from the single definition at `p`: its name, no column
/// list, no materialization, and its query.
pub open spec fn cte_is(w: With, ts: Seq<Token>, p: int) -> bool {
    let q = with_body_start(ts, p);
    &&& w.recursive == kw_at(ts, p + 1, Keyword::Recursive)
    &&& w.ctes@.len() == 1
    &&& w.ctes@[0].item.name == ts[q].span
    &&& w.ctes@[0].item.columns is None
    &&& w.ctes@[0].item.materialized is None
    &&& list_select_query(w.ctes@[0].item.query.item, ts, q + 3)
}

/// A single definition at `p` and a list select after it.
pub open spec fn cte_select_at(ts: Seq<Token>, p: int) -> bool {
    &&& single_cte_at(ts, p)
    &&& list_select_at(ts, cte_end(ts, p))
}

/// The query is the definition at `p` and the list select after it, and
/// nothing more.
pub open spec fn cte_select_query(q: Query, ts: Seq<Token>, p: int) -> bool {
    &&& q.with matches Some(w) && cte_is(w.item, ts, p)
    &&& q.tail is None
    &&& q.body matches Some(b) && b.item.set_ops@.len() == 0 && (b.item.left.item matches QueryPrimary::Select(sel)
        && is_list_select(sel.item, ts, cte_end(ts, p)))
}

/// Where the list select at `p` ends.
pub open spec fn list_select_end(ts: Seq<Token>, p: int) -> int {
    table_chain_end(ts, items_end(ts, p + 1) + 1)
}

/// The select is the one read from the list select at `p`: its items with
/// their aliases, its joined tables, and nothing else.
pub open spec fn is_list_select(s: Select, ts: Seq<Token>, p: int) -> bool {
    let f = items_end(ts, p + 1);
    &&& s.distinct is All
    &&& items_are(s.projection.item.list, ts, p + 1, item_count(ts, p + 1))
    &&& s.from matches Some(fc) && fc.item.sources.items@.len() == 1 && join_tree_is(
        fc.item.sources.items@[0].item,
        ts,
        f + 1,
        table_join_count(ts, f + 1),
    )
    &&& s.where_clause is None
    &&& s.group_by is None
    &&& s.having is None
    &&& s.window is None
}

/// The query is the list select at `p` and nothing more.
pub open spec fn list_select_query(q: Query, ts: Seq<Token>, p: int) -> bool {
    &&& q.with is None
    &&& q.tail is None
    &&& q.body matches Some(b) && b.item.set_ops@.len() == 0 && (b.item.left.item matches QueryPrimary::Select(sel)
        && is_list_select(sel.item, ts, p))
}

/// A named table at `p` and joins after it that can be read whole.
pub open spec fn table_chain_at(ts: Seq<Token>, p: int) -> bool {
    &&& named_factor_at(ts, p)
    &&& exists|m: nat| #[trigger] join_chain(ts, named_factor_end(ts, p), m)
}

/// How many joins follow the named table at `p`.
pub open spec fn table_join_count(ts: Seq<Token>, p: int) -> nat {
    choose|m: nat| #[trigger] join_chain(ts, named_factor_end(ts, p), m)
}

/// Where the named table at `p` and its joins end.
pub open spec fn table_chain_end(ts: Seq<Token>, p: int) -> int {
    chain_pos(ts, named_factor_end(ts, p), table_join_count(ts, p))
}

/// `SELECT item FROM table [joins]` at `p`, then a list-ending token: the
/// item a literal or a one-part name, the table a named table, each join
/// one with a named table and a condition of `ON` and a literal or `USING`
/// one column.
pub open spec fn join_select_at(ts: Seq<Token>, p: int) -> bool {
    &&& kw_at(ts, p, Keyword::Select)
    &&& simple_item_at(ts, p + 1)
    &&& kw_at(ts, p + 2, Keyword::From)
    &&& table_chain_at(ts, p + 3)
    &&& closer_kind(kind_at(ts, table_chain_end(ts, p + 3)))
}

/// The select is the one read from the join select at `p`: its one item,
/// its joined tables, and nothing else.
pub open spec fn is_join_select(s: Select, ts: Seq<Token>, p: int) -> bool {
    &&& s.distinct is All
    &&& s.projection.item.list.items@.len() == 1
    &&& simple_item_is(s.projection.item.list.items@[0].item.expr.item, ts, p + 1)
    &&& s.projection.item.list.items@[0].item.alias is None
    &&& s.from matches Some(f) && f.item.sources.items@.len() == 1 && join_tree_is(
        f.item.sources.items@[0].item,
        ts,
        p + 3,
        table_join_count(ts, p + 3),
    )
    &&& s.where_clause is None
    &&& s.group_by is None
    &&& s.having is None
    &&& s.window is None
}

/// The query is the join select at `p` and nothing more.
pub open spec fn join_select_query(q: Query, ts: Seq<Token>, p: int) -> bool {
    &&& q.with is None
    &&& q.tail is None
    &&& q.body matches Some(b) && b.item.set_ops@.len() == 0 && (b.item.left.item matches QueryPrimary::Select(sel)
        && is_join_select(sel.item, ts, p))
}

/// The alias that may start at `r`: an identifier, or `AS` and an
/// identifier.
pub open spec fn alias_at(ts: Seq<Token>, r: int) -> Option<Span> {
    if ident_kind(kind_at(ts, r)) {
        Some(ts[r].span)
    } else if kind_at(ts, r) == Some(TokenKind::Keyword(Keyword::As)) && ident_kind(kind_at(ts, r + 1)) {
        Some(ts[r + 1].span)
    } else {
        None
    }
}

/// How many tokens the alias at `r` takes.
pub open spec fn alias_len(ts: Seq<Token>, r: int) -> int {
    if ident_kind(kind_at(ts, r)) {
        1
    } else if alias_at(ts, r) is Some {
        2
    } else {
        0
    }
}

/// Whether reading an alias at `r` ends in a settled place: an alias is
/// there, or no `AS` starts one.
pub open spec fn alias_settled(ts: Seq<Token>, r: int) -> bool {
    alias_at(ts, r) is Some || kind_at(ts, r) != Some(TokenKind::Keyword(Keyword::As))
}

/// The span an alias names, where there is one.
pub open spec fn alias_of(a: Option<Loc<SpannedStr>>) -> Option<Span> {
    match a {
        Some(l) => Some(l.item),
        None => None,
    }
}

/// `(name)` at `c`: a column list of one identifier or keyword.
pub open spec fn single_column_list_at(ts: Seq<Token>, c: int) -> bool {
    &&& kind_at(ts, c) == Some(TokenKind::LeftParen)
    &&& (ident_kind(kind_at(ts, c + 1)) || kind_at(ts, c + 1) matches Some(TokenKind::Keyword(_)))
    &&& kind_at(ts, c + 2) == Some(TokenKind::RightParen)
}

/// The name is the one-part name at `q`.
pub open spec fn one_part_name_at(name: Loc<QualifiedName>, ts: Seq<Token>, q: int) -> bool {
    &&& name.span == ts[q].span
    &&& name.item.parts.items@.len() == 1
    &&& name.item.parts.items@[0].item == name_part_at(ts, q)
}

/// A one-part name at `q` that is not qualified further.
pub open spec fn lone_name_at(ts: Seq<Token>, q: int) -> bool {
    name_part_kind_v1(kind_at(ts, q)) && kind_at(ts, q + 1) != Some(TokenKind::Dot)
}

/// A table function with `nargs` arguments that end before `a`:
/// a result is such a function; where the alias and the column list after
/// it can be read, it is owed, with its argument count, alias and
/// columns, and reading stops after them at `fin`.
pub open spec fn function_factor_at(
    res: Option<TableRef>,
    ts: Seq<Token>,
    lat: bool,
    a: int,
    nargs: nat,
    fin: int,
) -> bool {
    let c = a + alias_len(ts, a);
    &&& res is Some ==> (res matches Some(TableRef::Factor(f)) && f.item is Function)
    &&& alias_settled(ts, a) && (kind_at(ts, c) != Some(TokenKind::LeftParen) || single_column_list_at(ts, c))
        ==> (res matches Some(TableRef::Factor(f)) && f.item matches TableFactor::Function(g) && {
        &&& g.item.lateral == lat
        &&& g.item.args.items@.len() == nargs
        &&& alias_of(g.item.alias) == alias_at(ts, a)
        &&& kind_at(ts, c) != Some(TokenKind::LeftParen) ==> g.item.columns is None && fin == c
        &&& single_column_list_at(ts, c) ==> (g.item.columns matches Some(l) && l.items@.len() == 1
            && l.items@[0].item == ts[c + 1].span) && fin == c + 3
    })
}

/// A token that ends a select item, a table name or a clause: a
/// list-ending token, `FROM` or `WHERE`.
pub open spec fn clause_end_kind(k: Option<TokenKind>) -> bool {
    closer_kind(k) || k == Some(TokenKind::Keyword(Keyword::From)) || k == Some(
        TokenKind::Keyword(Keyword::Where),
    )
}

/// A token that ends a table name in `FROM`: a list-ending token or `WHERE`.
pub open spec fn from_end_kind(k: Option<TokenKind>) -> bool {
    closer_kind(k) || k == Some(TokenKind::Keyword(Keyword::Where))
}

/// A literal alone, or a one-part name, at `p`, with no operator after it.
pub open spec fn simple_item_at(ts: Seq<Token>, p: int) -> bool {
    lone_literal_at(ts, p) || (single_name_at(ts, p) && stops_before(ts, p + 1, 0))
}

/// The expression is the simple item at `p`: that literal, or that name.
pub open spec fn simple_item_is(e: Expr, ts: Seq<Token>, p: int) -> bool {
    if lone_literal_at(ts, p) {
        e == literal_expr_at(ts, p)
    } else {
        is_name_at(e, ts, p)
    }
}

/// Where a `WHERE` may stand in the simple select at `p`.
pub open spec fn select_where_pos(ts: Seq<Token>, p: int) -> int {
    if kw_at(ts, p + 2, Keyword::From) {
        p + 4
    } else {
        p + 2
    }
}

/// Where the simple select at `p` ends.
pub open spec fn select_end(ts: Seq<Token>, p: int) -> int {
    let w = select_where_pos(ts, p);
    if kw_at(ts, w, Keyword::Where) {
        w + 2
    } else {
        w
    }
}

/// `SELECT item [FROM table] [WHERE literal]` at `p`, then a list-ending
/// token: the item a literal or a one-part name, the table an identifier.
pub open spec fn simple_select_at(ts: Seq<Token>, p: int) -> bool {
    let w = select_where_pos(ts, p);
    &&& kw_at(ts, p, Keyword::Select)
    &&& simple_item_at(ts, p + 1)
    &&& kw_at(ts, p + 2, Keyword::From) ==> ident_kind(kind_at(ts, p + 3))
    &&& kw_at(ts, w, Keyword::Where) ==> lone_literal_at(ts, w + 1) && closer_kind(kind_at(ts, w + 2))
    &&& !kw_at(ts, w, Keyword::Where) ==> closer_kind(kind_at(ts, w))
}

/// The select is the one read from the simple select at `p`: its one item,
/// its table, its condition, and nothing else.
pub open spec fn is_simple_select(s: Select, ts: Seq<Token>, p: int) -> bool {
    let w = select_where_pos(ts, p);
    &&& s.distinct is All
    &&& s.projection.item.list.items@.len() == 1
    &&& simple_item_is(s.projection.item.list.items@[0].item.expr.item, ts, p + 1)
    &&& s.projection.item.list.items@[0].item.alias is None
    &&& kw_at(ts, p + 2, Keyword::From) ==> (s.from matches Some(f) && f.item.sources.items@.len() == 1 && (
    f.item.sources.items@[0].item matches TableRef::Factor(tf) && tf.item matches TableFactor::Named(n)
        && one_part_name_at(n.item.name, ts, p + 3) && n.item.alias is None))
    &&& !kw_at(ts, p + 2, Keyword::From) ==> s.from is None
    &&& kw_at(ts, w, Keyword::Where) ==> (s.where_clause matches Some(wc) && wc.item.expr.item == literal_expr_at(
        ts,
        w + 1,
    ))
    &&& !kw_at(ts, w, Keyword::Where) ==> s.where_clause is None
    &&& s.group_by is None
    &&& s.having is None
    &&& s.window is None
}

/// The query is the simple select at `p` and nothing more.
pub open spec fn simple_select_query(q: Query, ts: Seq<Token>, p: int) -> bool {
    &&& q.with is None
    &&& q.tail is None
    &&& q.body matches Some(b) && b.item.set_ops@.len() == 0 && (b.item.left.item matches QueryPrimary::Select(sel)
        && is_simple_select(sel.item, ts, p))
}

/// Whether a token of this kind is an identifier, quoted or not.
pub open spec fn ident_kind(k: Option<TokenKind>) -> bool {
    k matches Some(TokenKind::Identifier) || k matches Some(TokenKind::IdentifierQuoted(_))
}

/// Whether a token of this kind ends a list: the end of input, `)` or `;`.
pub open spec fn closer_kind(k: Option<TokenKind>) -> bool {
    k is None || k == Some(TokenKind::Eof) || k == Some(TokenKind::RightParen) || k == Some(
        TokenKind::Semicolon,
    )
}

/// The literal at `p` as a located expression.
pub open spec fn literal_expr_at(ts: Seq<Token>, p: int) -> Expr {
    Expr::Literal(Loc { span: ts[p].span, item: literal_token(ts, p)->0 })
}

/// Whether a token of this kind starts a part of a query: `WITH`,
/// `SELECT`, `ORDER`, `LIMIT`, `FETCH` or `OFFSET`.
pub open spec fn query_part_kind(k: Option<TokenKind>) -> bool {
    k == Some(TokenKind::Keyword(Keyword::With)) || k == Some(TokenKind::Keyword(Keyword::Select)) || k == Some(
        TokenKind::Keyword(Keyword::Order),
    ) || k == Some(TokenKind::Keyword(Keyword::Limit)) || k == Some(TokenKind::Keyword(Keyword::Fetch)) || k
        == Some(TokenKind::Keyword(Keyword::Offset))
}

/// Where the first definition of a `WITH` starting at `p` starts: past
/// `WITH` and an optional `RECURSIVE`.
pub open spec fn with_body_start(ts: Seq<Token>, p: int) -> int {
    p + 1 + (if kind_at(ts, p + 1) == Some(TokenKind::Keyword(Keyword::Recursive)) { 1int } else { 0int })
}

/// `WITH [RECURSIVE] name AS ()` at `p`, followed by no comma: one definition
/// whose query is empty.
pub open spec fn single_empty_cte(ts: Seq<Token>, p: int) -> bool {
    let q = with_body_start(ts, p);
    &&& kind_at(ts, p) == Some(TokenKind::Keyword(Keyword::With))
    &&& ident_kind(kind_at(ts, q))
    &&& kind_at(ts, q + 1) == Some(TokenKind::Keyword(Keyword::As))
    &&& kind_at(ts, q + 2) == Some(TokenKind::LeftParen)
    &&& kind_at(ts, q + 3) == Some(TokenKind::RightParen)
    &&& kind_at(ts, q + 4) != Some(TokenKind::Comma)
}

/// `WINDOW name AS ()` at `p`, followed by no comma.
pub open spec fn single_empty_window(ts: Seq<Token>, p: int) -> bool {
    &&& kind_at(ts, p) == Some(TokenKind::Keyword(Keyword::Window))
    &&& ident_kind(kind_at(ts, p + 1))
    &&& kind_at(ts, p + 2) == Some(TokenKind::Keyword(Keyword::As))
    &&& kind_at(ts, p + 3) == Some(TokenKind::LeftParen)
    &&& kind_at(ts, p + 4) == Some(TokenKind::RightParen)
    &&& kind_at(ts, p + 5) != Some(TokenKind::Comma)
}

/// Where a statement starts: past one leading semicolon.
pub open spec fn statement_start(ts: Seq<Token>, p: int) -> int {
    if kind_at(ts, p) == Some(TokenKind::Semicolon) {
        p + 1
    } else {
        p
    }
}

/// What a statement read at `p` is, by the keyword there: `INSERT`, `UPDATE`
/// and `DELETE` give those statements where they read, and a query where they
/// do not; any other start that is not too short gives a query. The simple
/// forms of each give the statement they spell.
pub open spec fn dml_read_at(ts: Seq<Token>, p: int, s: Statement) -> bool {
    &&& !is_partial_at(ts, p) ==> match dml_keyword_at(ts, p) {
        Some(Keyword::Insert) => s is Insert || s is Query,
        Some(Keyword::Update) => s is Update || s is Query,
        Some(_) => s is Delete || s is Query,
        None => s is Query,
    }
    &&& insert_ok_at(ts, p) ==> s is Insert
    &&& update_ok_at(ts, p) ==> s is Update
    &&& delete_ok_at(ts, p) <==> s is Delete
    &&& simple_insert_at(ts, p) ==> (s matches Statement::Insert(i) && is_simple_insert(i.item, ts, p))
    &&& simple_update_at(ts, p) ==> (s matches Statement::Update(u) && is_simple_update(u.item, ts, p))
    &&& simple_delete_at(ts, p) ==> (s matches Statement::Delete(d) && is_simple_delete(d.item, ts, p))
}

/// The keywords that cannot stand for a name.
pub open spec fn spec_is_reserved(kw: Keyword) -> bool {
    match kw {
        Keyword::Select | Keyword::From | Keyword::Where | Keyword::Group | Keyword::Having
        | Keyword::Order | Keyword::Limit | Keyword::Offset | Keyword::Join | Keyword::Inner
        | Keyword::Left | Keyword::Right | Keyword::Full | Keyword::Cross | Keyword::On
        | Keyword::Using | Keyword::Union | Keyword::Intersect | Keyword::Except | Keyword::With
        | Keyword::As | Keyword::By | Keyword::Distinct | Keyword::All => true,
        _ => false,
    }
}

/// The join that the keywords at `p` spell, and how many tokens they take.
pub open spec fn spec_join_kind(ts: Seq<Token>, p: int) -> Option<(JoinKind, int)> {
    let natural = kind_at(ts, p) == Some(TokenKind::Keyword(Keyword::Natural));
    let q = if natural { p + 1 } else { p };
    let kw = |k: Keyword| Some(TokenKind::Keyword(k));
    if kind_at(ts, q) == kw(Keyword::Inner) && kind_at(ts, q + 1) == kw(Keyword::Join) {
        Some((JoinKind { base: JoinBase::Inner, outer: false, natural }, q + 2 - p))
    } else if kind_at(ts, q) == kw(Keyword::Cross) && kind_at(ts, q + 1) == kw(Keyword::Join) {
        Some((JoinKind { base: JoinBase::Cross, outer: false, natural }, q + 2 - p))
    } else if kind_at(ts, q) == kw(Keyword::Join) {
        Some((JoinKind { base: JoinBase::Inner, outer: false, natural }, q + 1 - p))
    } else if kind_at(ts, q) == kw(Keyword::Left) || kind_at(ts, q) == kw(Keyword::Right)
        || kind_at(ts, q) == kw(Keyword::Full) {
        let base = if kind_at(ts, q) == kw(Keyword::Left) {
            JoinBase::Left
        } else if kind_at(ts, q) == kw(Keyword::Right) {
            JoinBase::Right
        } else {
            JoinBase::Full
        };
        let outer = kind_at(ts, q + 1) == kw(Keyword::Outer);
        let j = if outer { q + 2 } else { q + 1 };
        if kind_at(ts, j) == kw(Keyword::Join) {
            Some((JoinKind { base, outer, natural }, j + 1 - p))
        } else {
            None
        }
    } else {
        None
    }
}

/// The set operation at `p` and whether `ALL` follows it.
pub open spec fn spec_set_op(ts: Seq<Token>, p: int) -> Option<SetOp> {
    let all = kind_at(ts, p + 1) == Some(TokenKind::Keyword(Keyword::All));
    match kind_at(ts, p) {
        Some(TokenKind::Keyword(Keyword::Union)) => Some(SetOp::Union { all }),
        Some(TokenKind::Keyword(Keyword::Intersect)) => Some(SetOp::Intersect { all }),
        Some(TokenKind::Keyword(Keyword::Except)) => Some(SetOp::Except { all }),
        Some(TokenKind::Keyword(Keyword::Minus)) => Some(SetOp::Minus { all }),
        _ => None,
    }
}

impl<'a> Parser<'a> {
    /// The position lies within the tokens.
    pub open spec fn wf(&self) -> bool {
        self.tokens.wf()
    }

    /// How many tokens are left.
    pub open spec fn rem(&self) -> nat {
        self.tokens.rem()
    }

    /// The position.
    pub open spec fn at(&self) -> int {
        self.tokens.pos as int
    }

    /// The tokens.
    pub open spec fn toks(&self) -> Seq<Token> {
        self.tokens.tokens@
    }

    /// The kind of the token at the position.
    pub open spec fn kind(&self) -> Option<TokenKind> {
        kind_at(self.toks(), self.at())
    }

    /// `self` is `before` with the position moved forward, or left, over the
    /// same tokens.
    pub open spec fn moved(&self, before: Parser<'a>) -> bool {
        &&& self.toks() == before.toks()
        &&& before.at() <= self.at() <= self.toks().len()
    }

    /// A parser at the first token.
    pub fn new(tape: TokenTape<'a>) -> (res: Self)
        ensures
            res.tokens == tape,
    {
        Parser { tokens: tape }
    }

    /// Parse one statement, past a leading semicolon. Parsing never fails:
    /// input too short to tell what it starts gives a partial statement;
    /// `INSERT`, `UPDATE` and `DELETE` give those statements, read by the
    /// fuller grammar of [`WinnowParser`], where they read there; anything
    /// else (and those that do not read) a query holding what could be read.
    #[verifier::rlimit(40)]
    pub fn parse_statement(&mut self) -> (res: Option<Loc<Statement>>)
        requires
            old(self).wf(),
        ensures
            final(self).moved(*old(self)),
            res is Some,
            (res->0.item is Partial) == is_partial_at(
                old(self).toks(),
                statement_start(old(self).toks(), old(self).at()),
            ),
            ({
                let ts = old(self).toks();
                let p = statement_start(ts, old(self).at());
                let s = res->0;
                &&& s.span.start == spec_current_pos(ts, p)
                &&& s.item is Partial ==> s.span.end == s.span.start && final(self).at() == p
                &&& !(s.item is Partial) ==> s.span.end == spec_prev_end(ts, final(self).at(), s.span.start)
                &&& s.item matches Statement::Query(q) ==> q.span == s.span
            }),
            dml_read_at(old(self).toks(), statement_start(old(self).toks(), old(self).at()), res->0.item),
            ({
                let ts = old(self).toks();
                kind_at(ts, statement_start(ts, old(self).at())) == Some(TokenKind::Keyword(Keyword::Select))
                    ==> is_select_query(res->0.item)
            }),
            ({
                let ts = old(self).toks();
                let p = statement_start(ts, old(self).at());
                simple_select_at(ts, p) ==> (res matches Some(s) && s.item matches Statement::Query(q)
                    && simple_select_query(q.item, ts, p))
            }),
            ({
                let ts = old(self).toks();
                let p = statement_start(ts, old(self).at());
                join_select_at(ts, p) ==> (res matches Some(s) && s.item matches Statement::Query(q)
                    && join_select_query(q.item, ts, p))
            }),
            ({
                let ts = old(self).toks();
                let p = statement_start(ts, old(self).at());
                list_select_at(ts, p) ==> (res matches Some(s) && s.item matches Statement::Query(q)
                    && list_select_query(q.item, ts, p))
            }),
            ({
                let ts = old(self).toks();
                let p = statement_start(ts, old(self).at());
                union_select_at(ts, p) ==> (res matches Some(s) && s.item matches Statement::Query(q)
                    && union_select_query(q.item, ts, p))
            }),
            ({
                let ts = old(self).toks();
                let p = statement_start(ts, old(self).at());
                tail_select_at(ts, p) ==> (res matches Some(s) && s.item matches Statement::Query(q)
                    && tail_select_query(q.item, ts, p))
            }),
            ({
                let ts = old(self).toks();
                let p = statement_start(ts, old(self).at());
                cte_select_at(ts, p) ==> (res matches Some(s) && s.item matches Statement::Query(q)
                    && cte_select_query(q.item, ts, p))
            }),
    {
        let _ = self.eat(TokenKind::Semicolon);
        let start = self.current_pos();
        if self.tokens.current().is_none() {
            let pos = match self.tokens.prev() {
                Some(t) => t.span,
                None => Span::new(0, 0),
            };
            return Some(Loc::new(Span::new(start, start), Statement::Partial(Loc::new(pos, ()))));
        }
        let kind = self.tokens.current_kind();
        if kind == Some(TokenKind::Identifier) && self.tokens.peek_kind() == Some(TokenKind::Eof) {
            let sp = match self.tokens.current() {
                Some(t) => t.span,
                None => Span::new(0, 0),
            };
            return Some(Loc::new(Span::new(start, start), Statement::Partial(Loc::new(sp, ()))));
        }
        if kind == Some(TokenKind::Eof) {
            return Some(
                Loc::new(
                    Span::new(start, start),
                    Statement::Partial(Loc::new(Span::new(start, start), ())),
                ),
            );
        }
        if kind == Some(TokenKind::Keyword(Keyword::Insert)) {
            let mut w = WinnowParser::starting_at(self.tokens.tokens, self.tokens.pos);
            if let Some(ins) = w.parse_insert() {
                self.tokens.pos = w.index();
                let span = self.span_from(start);
                return Some(Loc::new(span, Statement::Insert(Loc::new(span, ins))));
            }
        } else if kind == Some(TokenKind::Keyword(Keyword::Update)) {
            let mut w = WinnowParser::starting_at(self.tokens.tokens, self.tokens.pos);
            if let Some(upd) = w.parse_update() {
                self.tokens.pos = w.index();
                let span = self.span_from(start);
                return Some(Loc::new(span, Statement::Update(Loc::new(span, upd))));
            }
        } else if kind == Some(TokenKind::Keyword(Keyword::Delete)) {
            let mut w = WinnowParser::starting_at(self.tokens.tokens, self.tokens.pos);
            if let Some(del) = w.parse_delete() {
                self.tokens.pos = w.index();
                let span = self.span_from(start);
                return Some(Loc::new(span, Statement::Delete(Loc::new(span, del))));
            }
        }
        let q = self.parse_query();
        let span = self.span_from(start);
        Some(Loc::new(span, Statement::Query(Loc::new(span, q))))
    }

    /// A query: each of its parts where it is there.
    #[verifier::rlimit(40)]
    pub(crate) fn parse_query(&mut self) -> (res: Query)
        requires
            old(self).wf(),
        ensures
            final(self).moved(*old(self)),
            old(self).kind() == Some(TokenKind::Keyword(Keyword::Select)) ==> res.with is None && (res.body matches Some(b)
                && b.item.left.item is Select),
            !query_part_kind(old(self).kind()) ==> res.with is None && res.body is None && res.tail is None && final(self).at() == old(self).at(),
            simple_select_at(old(self).toks(), old(self).at()) ==> simple_select_query(res, old(self).toks(), old(self).at())
                && final(self).at() == select_end(old(self).toks(), old(self).at()),
            join_select_at(old(self).toks(), old(self).at()) ==> join_select_query(res, old(self).toks(), old(self).at())
                && final(self).at() == table_chain_end(old(self).toks(), old(self).at() + 3),
            list_select_at(old(self).toks(), old(self).at()) ==> list_select_query(res, old(self).toks(), old(self).at())
                && final(self).at() == list_select_end(old(self).toks(), old(self).at()),
            union_select_at(old(self).toks(), old(self).at()) ==> union_select_query(res, old(self).toks(), old(self).at()),
            cte_select_at(old(self).toks(), old(self).at()) ==> cte_select_query(res, old(self).toks(), old(self).at())
                && final(self).at() == list_select_end(old(self).toks(), cte_end(old(self).toks(), old(self).at())),
            tail_select_at(old(self).toks(), old(self).at()) ==> tail_select_query(res, old(self).toks(), old(self).at())
                && final(self).at() == limit_end(old(self).toks(), order_end(old(self).toks(), list_select_end(old(self).toks(), old(self).at()))),
        decreases old(self).rem(), 20nat,
    {
        let s = self.current_pos();
        let with = match self.parse_with() {
            Some(w) => Some(Loc::new(self.span_from(s), w)),
            None => None,
        };
        let s = self.current_pos();
        let body = match self.parse_query_expr() {
            Some(b) => Some(Loc::new(self.span_from(s), b)),
            None => None,
        };
        let s = self.current_pos();
        let tail = match self.parse_query_tail() {
            Some(t) => Some(Loc::new(self.span_from(s), t)),
            None => None,
        };
        Query { with, body, tail }
    }

    /// `WITH [RECURSIVE] name [(columns)] [[NOT] MATERIALIZED] AS (query), ...`
    #[verifier::rlimit(40)]
    pub(crate) fn parse_with(&mut self) -> (res: Option<With>)
        requires
            old(self).wf(),
        ensures
            final(self).moved(*old(self)),
            res is Some ==> final(self).at() > old(self).at(),
            old(self).kind() != Some(TokenKind::Keyword(Keyword::With)) ==> res is None && final(self).at()
                == old(self).at(),
            res matches Some(w) ==> w.recursive == kw_at(old(self).toks(), old(self).at() + 1, Keyword::Recursive)
                && w.ctes@.len() >= 1,
            single_empty_cte(old(self).toks(), old(self).at()) ==> (res matches Some(w) && w.ctes@.len() == 1),
            single_cte_at(old(self).toks(), old(self).at()) ==> (res matches Some(w) && cte_is(w, old(self).toks(), old(self).at()))
                && final(self).at() == cte_end(old(self).toks(), old(self).at()),
        decreases old(self).rem(), 19nat,
    {
        let ghost p0 = self.at();
        self.eat_kw(Keyword::With)?;
        let recursive = self.eat_kw(Keyword::Recursive).is_some();
        let mut ctes: Vec<Loc<Cte>> = Vec::new();
        loop
            invariant_except_break
                single_empty_cte(old(self).toks(), p0) ==> ctes@.len() == 0 && self.at() == with_body_start(
                    old(self).toks(),
                    p0,
                ),
                single_cte_at(old(self).toks(), p0) ==> ctes@.len() == 0 && self.at() == with_body_start(
                    old(self).toks(),
                    p0,
                ),
            invariant
                self.moved(*old(self)),
                self.at() > p0,
                p0 == old(self).at(),
                old(self).kind() == Some(TokenKind::Keyword(Keyword::With)),
                recursive == kw_at(old(self).toks(), p0 + 1, Keyword::Recursive),
            ensures
                self.moved(*old(self)),
                self.at() > p0,
                recursive == kw_at(old(self).toks(), p0 + 1, Keyword::Recursive),
                ctes@.len() >= 1,
                single_empty_cte(old(self).toks(), p0) ==> ctes@.len() == 1,
                single_cte_at(old(self).toks(), p0) ==> cte_is((With { recursive, ctes }), old(self).toks(), p0)
                    && self.at() == cte_end(old(self).toks(), p0),
            decreases self.rem(),
        {
            let name = self.parse_ident()?;
            let columns = if self.eat(TokenKind::LeftParen).is_some() {
                let cols = if self.tokens.current_kind() == Some(TokenKind::RightParen) {
                    DelimitedList::new()
                } else {
                    self.parse_ident_list1()?
                };
                let _ = self.eat(TokenKind::RightParen);
                Some(cols)
            } else {
                None
            };
            let materialized = if self.eat_kw(Keyword::Materialized).is_some() {
                Some(CteMaterialization::Materialized)
            } else if self.eat_op_tag(OpTag::Not).is_some() && self.eat_kw(
                Keyword::Materialized,
            ).is_some() {
                Some(CteMaterialization::NotMaterialized)
            } else {
                None
            };
            self.eat_kw(Keyword::As)?;
            self.eat(TokenKind::LeftParen)?;
            let qs = self.current_pos();
            let q = self.parse_query();
            let query = Box::new(Loc::new(self.span_from(qs), q));
            let _ = self.eat(TokenKind::RightParen);
            let cte = Cte { name, columns, materialized, query };
            let span_start = cte.name.start;
            let span_end = self.prev_end(span_start);
            ctes.push(Loc::new(Span::new(span_start, span_end), cte));
            if self.eat(TokenKind::Comma).is_some() {
                continue;
            }
            break;
        }
        Some(With { recursive, ctes })
    }

    /// A query primary and the set operations after it.
    #[verifier::rlimit(40)]
    pub(crate) fn parse_query_expr(&mut self) -> (res: Option<QueryExpr>)
        requires
            old(self).wf(),
        ensures
            final(self).moved(*old(self)),
            res is Some ==> final(self).at() > old(self).at(),
            old(self).kind() == Some(TokenKind::Keyword(Keyword::Select)) ==> (res matches Some(e) && e.left.item is Select),
            old(self).kind() != Some(TokenKind::Keyword(Keyword::Select)) ==> res is None && final(self).at() == old(self).at(),
            simple_select_at(old(self).toks(), old(self).at()) ==> (res matches Some(e) && e.set_ops@.len() == 0 && (
            e.left.item matches QueryPrimary::Select(sel) && is_simple_select(sel.item, old(self).toks(), old(self).at())))
                && final(self).at() == select_end(old(self).toks(), old(self).at()),
            join_select_at(old(self).toks(), old(self).at()) ==> (res matches Some(e) && e.set_ops@.len() == 0 && (
            e.left.item matches QueryPrimary::Select(sel) && is_join_select(sel.item, old(self).toks(), old(self).at())))
                && final(self).at() == table_chain_end(old(self).toks(), old(self).at() + 3),
            list_select_at(old(self).toks(), old(self).at()) ==> (res matches Some(e) && e.set_ops@.len() == 0 && (
            e.left.item matches QueryPrimary::Select(sel) && is_list_select(sel.item, old(self).toks(), old(self).at())))
                && final(self).at() == list_select_end(old(self).toks(), old(self).at()),
            ({
                let ts = old(self).toks();
                let p = old(self).at();
                let e = list_select_end(ts, p);
                union_select_at(ts, p) ==> (res matches Some(x) && x.set_ops@.len() == 1 && (x.left.item matches QueryPrimary::Select(
                    sel,
                ) && is_list_select(sel.item, ts, p)) && x.set_ops@[0].item.op == spec_set_op(ts, e)->0 && (
                x.set_ops@[0].item.right.item matches QueryPrimary::Select(r) && is_list_select(
                    r.item,
                    ts,
                    set_op_right(ts, e),
                ))) && final(self).at() == list_select_end(ts, set_op_right(ts, e))
            }),
            tail_select_at(old(self).toks(), old(self).at()) ==> (res matches Some(e) && e.set_ops@.len() == 0 && (
            e.left.item matches QueryPrimary::Select(sel) && is_list_select(sel.item, old(self).toks(), old(self).at())))
                && final(self).at() == list_select_end(old(self).toks(), old(self).at()),
        decreases old(self).rem(), 19nat,
    {
        let ghost p0 = self.at();
        let s = self.current_pos();
        let left_item = self.parse_query_core()?;
        let left = Loc::new(self.span_from(s), left_item);
        let mut set_ops: Vec<Loc<SetOpTerm>> = Vec::new();
        loop
            invariant
                self.moved(*old(self)),
                self.at() > p0,
                p0 == old(self).at(),
                simple_select_at(old(self).toks(), p0) ==> self.at() == select_end(old(self).toks(), p0) && set_ops@.len()
                    == 0 && (left.item matches QueryPrimary::Select(sel) && is_simple_select(sel.item, old(self).toks(), p0)),
                join_select_at(old(self).toks(), p0) ==> self.at() == table_chain_end(old(self).toks(), p0 + 3) && set_ops@.len()
                    == 0 && (left.item matches QueryPrimary::Select(sel) && is_join_select(sel.item, old(self).toks(), p0)),
                list_select_at(old(self).toks(), p0) ==> self.at() == list_select_end(old(self).toks(), p0) && set_ops@.len()
                    == 0 && (left.item matches QueryPrimary::Select(sel) && is_list_select(sel.item, old(self).toks(), p0)),
                tail_select_at(old(self).toks(), p0) ==> self.at() == list_select_end(old(self).toks(), p0) && set_ops@.len()
                    == 0 && (left.item matches QueryPrimary::Select(sel) && is_list_select(sel.item, old(self).toks(), p0)),
                union_select_at(old(self).toks(), p0) ==> (left.item matches QueryPrimary::Select(sel) && is_list_select(
                    sel.item,
                    old(self).toks(),
                    p0,
                )) && ((set_ops@.len() == 0 && self.at() == list_select_end(old(self).toks(), p0)) || (set_ops@.len() == 1
                    && set_ops@[0].item.op == spec_set_op(old(self).toks(), list_select_end(old(self).toks(), p0))->0 && (
                set_ops@[0].item.right.item matches QueryPrimary::Select(r) && is_list_select(
                    r.item,
                    old(self).toks(),
                    set_op_right(old(self).toks(), list_select_end(old(self).toks(), p0)),
                )) && self.at() == list_select_end(
                    old(self).toks(),
                    set_op_right(old(self).toks(), list_select_end(old(self).toks(), p0)),
                ))),
            ensures
                self.moved(*old(self)),
                self.at() > p0,
                simple_select_at(old(self).toks(), p0) ==> self.at() == select_end(old(self).toks(), p0) && set_ops@.len()
                    == 0 && (left.item matches QueryPrimary::Select(sel) && is_simple_select(sel.item, old(self).toks(), p0)),
                join_select_at(old(self).toks(), p0) ==> self.at() == table_chain_end(old(self).toks(), p0 + 3) && set_ops@.len()
                    == 0 && (left.item matches QueryPrimary::Select(sel) && is_join_select(sel.item, old(self).toks(), p0)),
                list_select_at(old(self).toks(), p0) ==> self.at() == list_select_end(old(self).toks(), p0) && set_ops@.len()
                    == 0 && (left.item matches QueryPrimary::Select(sel) && is_list_select(sel.item, old(self).toks(), p0)),
                tail_select_at(old(self).toks(), p0) ==> self.at() == list_select_end(old(self).toks(), p0) && set_ops@.len()
                    == 0 && (left.item matches QueryPrimary::Select(sel) && is_list_select(sel.item, old(self).toks(), p0)),
                union_select_at(old(self).toks(), p0) ==> (left.item matches QueryPrimary::Select(sel) && is_list_select(
                    sel.item,
                    old(self).toks(),
                    p0,
                )) && set_ops@.len() == 1 && set_ops@[0].item.op == spec_set_op(
                    old(self).toks(),
                    list_select_end(old(self).toks(), p0),
                )->0 && (set_ops@[0].item.right.item matches QueryPrimary::Select(r) && is_list_select(
                    r.item,
                    old(self).toks(),
                    set_op_right(old(self).toks(), list_select_end(old(self).toks(), p0)),
                )) && self.at() == list_select_end(
                    old(self).toks(),
                    set_op_right(old(self).toks(), list_select_end(old(self).toks(), p0)),
                ),
            decreases self.rem(),
        {
            let s = self.current_pos();
            match self.parse_set_op_chain() {
                Some(t) => {
                    set_ops.push(Loc::new(self.span_from(s), t));
                },
                None => break,
            }
        }
        Some(QueryExpr { left, set_ops })
    }

    #[verifier::rlimit(40)]
    pub(crate) fn parse_set_op_chain(&mut self) -> (res: Option<SetOpTerm>)
        requires
            old(self).wf(),
        ensures
            final(self).moved(*old(self)),
            res is Some ==> final(self).at() > old(self).at(),
            ({
                let ts = old(self).toks();
                let p = old(self).at();
                let q = p + 1 + (if kw_at(ts, p + 1, Keyword::All) { 1int } else { 0int });
                &&& spec_set_op(ts, p) is None ==> res is None && final(self).at() == p
                &&& res matches Some(t) ==> t.op == spec_set_op(ts, p)->0 && t.right.item is Select
                &&& spec_set_op(ts, p) is Some && kw_at(ts, q, Keyword::Select) ==> res is Some
                &&& spec_set_op(ts, p) is Some && list_core_at(ts, q) ==> (res matches Some(t) && (t.right.item matches QueryPrimary::Select(
                    sel,
                ) && is_list_select(sel.item, ts, q))) && final(self).at() == list_select_end(ts, q)
            }),
        decreases old(self).rem(), 5nat,
    {
        let op = self.parse_set_op()?;
        let s = self.current_pos();
        let right_item = self.parse_query_core()?;
        let right = Loc::new(self.span_from(s), right_item);
        Some(SetOpTerm { op, right })
    }

    /// `UNION`, `INTERSECT`, `EXCEPT` or `MINUS`, then an optional `ALL`.
    pub(crate) fn parse_set_op(&mut self) -> (res: Option<SetOp>)
        requires
            old(self).wf(),
        ensures
            final(self).moved(*old(self)),
            res == spec_set_op(old(self).toks(), old(self).at()),
            res is Some ==> final(self).at() > old(self).at(),
            res is None ==> final(self).at() == old(self).at(),
            res is Some ==> final(self).at() == old(self).at() + 1 + (if kind_at(old(self).toks(), old(self).at() + 1) == Some(TokenKind::Keyword(Keyword::All)) { 1int } else { 0int }),
    {
        let kw = match self.tokens.current_kind() {
            Some(TokenKind::Keyword(k)) => k,
            _ => return None,
        };
        if !(kw == Keyword::Union || kw == Keyword::Intersect || kw == Keyword::Except || kw
            == Keyword::Minus) {
            return None;
        }
        let _ = self.tokens.advance();
        let all = self.eat_kw(Keyword::All).is_some();
        Some(
            if kw == Keyword::Union {
                SetOp::Union { all }
            } else if kw == Keyword::Intersect {
                SetOp::Intersect { all }
            } else if kw == Keyword::Except {
                SetOp::Except { all }
            } else {
                SetOp::Minus { all }
            },
        )
    }

    /// `ORDER BY`, `LIMIT`/`FETCH FIRST` and `OFFSET`, each at most once, in
    /// any order.
    #[verifier::rlimit(40)]
    pub(crate) fn parse_query_tail(&mut self) -> (res: Option<QuerySuffix>)
        requires
            old(self).wf(),
        ensures
            final(self).moved(*old(self)),
            res is Some ==> final(self).at() > old(self).at(),
            ({
                let ts = old(self).toks();
                let p = old(self).at();
                &&& !(kw_at(ts, p, Keyword::Order) || kw_at(ts, p, Keyword::Limit) || kw_at(ts, p, Keyword::Fetch)
                    || kw_at(ts, p, Keyword::Offset)) ==> res is None && final(self).at() == p
                &&& res matches Some(t) ==> t.order_by is Some || t.limit is Some || t.offset is Some
                &&& kw_at(ts, p, Keyword::Limit) && lone_literal_at(ts, p + 1) && closer_kind(kind_at(ts, p + 2)) ==> (
                res matches Some(t) && t.limit is Some && t.order_by is None && t.offset is None)
                &&& tail_shape_at(ts, p) ==> (res matches Some(t) && tail_is(t, ts, p)) && final(self).at() == limit_end(
                    ts,
                    order_end(ts, p),
                )
            }),
        decreases old(self).rem(), 15nat,
    {
        let ghost p0 = self.at();
        let mut order_by: Option<Loc<OrderBy>> = None;
        let mut limit: Option<Loc<Limit>> = None;
        let mut offset: Option<Loc<Offset>> = None;
        loop
            invariant
                self.moved(*old(self)),
                p0 == old(self).at(),
                !(kw_at(old(self).toks(), p0, Keyword::Order) || kw_at(old(self).toks(), p0, Keyword::Limit) || kw_at(
                    old(self).toks(),
                    p0,
                    Keyword::Fetch,
                ) || kw_at(old(self).toks(), p0, Keyword::Offset)) ==> order_by is None && limit is None && offset is None
                    && self.at() == p0,
                kw_at(old(self).toks(), p0, Keyword::Limit) && lone_literal_at(old(self).toks(), p0 + 1) && closer_kind(
                    kind_at(old(self).toks(), p0 + 2),
                ) ==> order_by is None && offset is None && ((limit is None && self.at() == p0) || (limit is Some
                    && self.at() == p0 + 2)),
                (order_by is Some || limit is Some || offset is Some) ==> self.at() > p0,
                ({
                    let ts = old(self).toks();
                    let o = order_end(ts, p0);
                    tail_shape_at(ts, p0) ==> offset is None && ((order_by is None && limit is None && self.at() == p0) || (
                    kw_at(ts, p0, Keyword::Order) && (order_by matches Some(ob) && order_is(ob.item, ts, p0)) && limit is None
                        && self.at() == o) || ((kw_at(ts, p0, Keyword::Order) ==> (order_by matches Some(ob) && order_is(
                        ob.item,
                        ts,
                        p0,
                    ))) && (!kw_at(ts, p0, Keyword::Order) ==> order_by is None) && kw_at(ts, o, Keyword::Limit) && (
                    limit matches Some(li) && li.item.style == LimitKind::Limit && li.item.count.item == literal_expr_at(ts, o + 1))
                        && self.at() == o + 2))
                }),
            ensures
                ({
                    let ts = old(self).toks();
                    tail_shape_at(ts, p0) ==> (order_by is Some || limit is Some || offset is Some) && tail_is(
                        QuerySuffix { order_by, limit, offset },
                        ts,
                        p0,
                    ) && self.at() == limit_end(ts, order_end(ts, p0))
                }),
                kw_at(old(self).toks(), p0, Keyword::Limit) && lone_literal_at(old(self).toks(), p0 + 1) && closer_kind(
                    kind_at(old(self).toks(), p0 + 2),
                ) ==> limit is Some && order_by is None && offset is None,
                !(kw_at(old(self).toks(), p0, Keyword::Order) || kw_at(old(self).toks(), p0, Keyword::Limit) || kw_at(
                    old(self).toks(),
                    p0,
                    Keyword::Fetch,
                ) || kw_at(old(self).toks(), p0, Keyword::Offset)) ==> order_by is None && limit is None && offset is None
                    && self.at() == p0,
                (order_by is Some || limit is Some || offset is Some) ==> self.at() > p0,
                self.moved(*old(self)),
            decreases self.rem(),
        {
            if order_by.is_none() {
                let s = self.current_pos();
                if let Some(ob) = self.parse_order_by() {
                    order_by = Some(Loc::new(self.span_from(s), ob));
                    continue;
                }
            }
            if limit.is_none() {
                let s = self.current_pos();
                if let Some(lim) = self.parse_limit() {
                    limit = Some(Loc::new(self.span_from(s), lim));
                    continue;
                }
            }
            if offset.is_none() {
                let s = self.current_pos();
                if let Some(off) = self.parse_offset() {
                    offset = Some(Loc::new(self.span_from(s), off));
                    continue;
                }
            }
            break;
        }
        if order_by.is_some() || limit.is_some() || offset.is_some() {
            Some(QuerySuffix { order_by, limit, offset })
        } else {
            None
        }
    }

    pub(crate) fn parse_order_by(&mut self) -> (res: Option<OrderBy>)
        requires
            old(self).wf(),
        ensures
            final(self).moved(*old(self)),
            res is Some ==> final(self).at() > old(self).at(),
            ({
                let ts = old(self).toks();
                let p = old(self).at();
                &&& !kw_at(ts, p, Keyword::Order) ==> res is None && final(self).at() == p
                &&& res matches Some(o) ==> o.items.items@.len() >= 1
                &&& kw_at(ts, p, Keyword::Order) && kw_at(ts, p + 1, Keyword::By) && lone_literal_at(ts, p + 2) && closer_kind(
                    kind_at(ts, p + 3),
                ) ==> (res matches Some(o) && o.items.items@.len() == 1) && final(self).at() == p + 3
                &&& kw_at(ts, p, Keyword::Order) && order_ok(ts, p) ==> (res matches Some(o) && order_is(o, ts, p))
                    && final(self).at() == order_end(ts, p)
            }),
        decreases old(self).rem(), 14nat,
    {
        self.eat_kw(Keyword::Order)?;
        self.eat_kw(Keyword::By)?;
        let items = self.parse_order_by_item_list1()?;
        Some(OrderBy { items })
    }

    pub(crate) fn parse_order_by_item(&mut self) -> (res: Option<OrderByItem>)
        requires
            old(self).wf(),
        ensures
            final(self).moved(*old(self)),
            res is Some ==> final(self).at() > old(self).at(),
            ({
                let ts = old(self).toks();
                let p = old(self).at();
                lone_literal_at(ts, p) ==> (res matches Some(it) && it.expr.item == literal_expr_at(ts, p)
                    && it.nulls is None && it.direction == (if kw_at(ts, p + 1, Keyword::Asc) {
                    Some(SortDirection::Asc)
                } else if kw_at(ts, p + 1, Keyword::Desc) {
                    Some(SortDirection::Desc)
                } else {
                    None
                })) && final(self).at() == p + 1 + (if kw_at(ts, p + 1, Keyword::Asc) || kw_at(ts, p + 1, Keyword::Desc) { 1int } else { 0int })
            }),
            simple_item_at(old(self).toks(), old(self).at()) ==> (res matches Some(it) && simple_item_is(
                it.expr.item,
                old(self).toks(),
                old(self).at(),
            ) && it.direction == direction_at(old(self).toks(), old(self).at() + 1) && it.nulls is None) && final(self).at()
                == old(self).at() + 1 + (if direction_at(old(self).toks(), old(self).at() + 1) is Some { 1int } else { 0int }),
        decreases old(self).rem(), 11nat,
    {
        let s = self.current_pos();
        let e = self.parse_expr()?;
        let expr = Loc::new(self.span_from(s), e);
        let direction = if self.eat_kw(Keyword::Asc).is_some() {
            Some(SortDirection::Asc)
        } else if self.eat_kw(Keyword::Desc).is_some() {
            Some(SortDirection::Desc)
        } else {
            None
        };
        Some(OrderByItem { expr, direction, nulls: None })
    }

    /// `FETCH FIRST n [ROWS] [ONLY]` or `LIMIT n`.
    pub(crate) fn parse_limit(&mut self) -> (res: Option<Limit>)
        requires
            old(self).wf(),
        ensures
            final(self).moved(*old(self)),
            res is Some ==> final(self).at() > old(self).at(),
            ({
                let ts = old(self).toks();
                let p = old(self).at();
                &&& !(kw_at(ts, p, Keyword::Fetch) || kw_at(ts, p, Keyword::Limit)) ==> res is None && final(self).at() == p
                &&& kw_at(ts, p, Keyword::Limit) && lone_literal_at(ts, p + 1) ==> (res matches Some(l) && l.style
                    == LimitKind::Limit && l.count.item == literal_expr_at(ts, p + 1)) && final(self).at() == p + 2
                &&& kw_at(ts, p, Keyword::Fetch) && kw_at(ts, p + 1, Keyword::First) && lone_literal_at(ts, p + 2)
                    ==> (res matches Some(l) && l.style == LimitKind::FetchFirst && l.count.item == literal_expr_at(ts, p + 2))
                &&& res matches Some(l) ==> (l.style == LimitKind::Limit) == kw_at(ts, p, Keyword::Limit)
            }),
        decreases old(self).rem(), 14nat,
    {
        if self.eat_kw(Keyword::Fetch).is_some() {
            self.eat_kw(Keyword::First)?;
            let s = self.current_pos();
            let e = self.parse_expr()?;
            let count = Loc::new(self.span_from(s), e);
            let _ = self.eat_kw(Keyword::Rows);
            let _ = self.eat_kw(Keyword::Only);
            return Some(Limit { count, style: LimitKind::FetchFirst });
        }
        if self.eat_kw(Keyword::Limit).is_some() {
            let s = self.current_pos();
            let e = self.parse_expr()?;
            let count = Loc::new(self.span_from(s), e);
            return Some(Limit { count, style: LimitKind::Limit });
        }
        None
    }

    /// `OFFSET n [ROWS]`.
    pub(crate) fn parse_offset(&mut self) -> (res: Option<Offset>)
        requires
            old(self).wf(),
        ensures
            final(self).moved(*old(self)),
            res is Some ==> final(self).at() > old(self).at(),
            ({
                let ts = old(self).toks();
                let p = old(self).at();
                &&& !kw_at(ts, p, Keyword::Offset) ==> res is None && final(self).at() == p
                &&& kw_at(ts, p, Keyword::Offset) && lone_literal_at(ts, p + 1) ==> (res matches Some(o) && o.count.item
                    == literal_expr_at(ts, p + 1) && o.rows_keyword == kw_at(ts, p + 2, Keyword::Rows))
            }),
        decreases old(self).rem(), 14nat,
    {
        self.eat_kw(Keyword::Offset)?;
        let s = self.current_pos();
        let e = self.parse_expr()?;
        let count = Loc::new(self.span_from(s), e);
        let rows_keyword = self.eat_kw(Keyword::Rows).is_some();
        Some(Offset { count, rows_keyword })
    }

    pub(crate) fn parse_query_core(&mut self) -> (res: Option<QueryPrimary>)
        requires
            old(self).wf(),
        ensures
            final(self).moved(*old(self)),
            res is Some ==> final(self).at() > old(self).at(),
            old(self).kind() == Some(TokenKind::Keyword(Keyword::Select)) ==> res matches Some(QueryPrimary::Select(_)),
            res matches Some(x) ==> x is Select,
            old(self).kind() != Some(TokenKind::Keyword(Keyword::Select)) ==> res is None && final(self).at() == old(self).at(),
            simple_select_at(old(self).toks(), old(self).at()) ==> (res matches Some(QueryPrimary::Select(sel))
                && is_simple_select(sel.item, old(self).toks(), old(self).at())) && final(self).at() == select_end(
                old(self).toks(),
                old(self).at(),
            ),
            join_select_at(old(self).toks(), old(self).at()) ==> (res matches Some(QueryPrimary::Select(sel))
                && is_join_select(sel.item, old(self).toks(), old(self).at())) && final(self).at() == table_chain_end(
                old(self).toks(),
                old(self).at() + 3,
            ),
            list_core_at(old(self).toks(), old(self).at()) ==> (res matches Some(QueryPrimary::Select(sel))
                && is_list_select(sel.item, old(self).toks(), old(self).at())) && final(self).at() == list_select_end(
                old(self).toks(),
                old(self).at(),
            ),
        decreases old(self).rem(), 18nat,
    {
        if self.tokens.current_kind() == Some(TokenKind::Keyword(Keyword::Select)) {
            let s = self.current_pos();
            let sel = self.parse_select_stmt()?;
            Some(QueryPrimary::Select(Loc::new(self.span_from(s), sel)))
        } else {
            None
        }
    }

    /// `SELECT [DISTINCT ...] items [FROM] [WHERE] [GROUP BY] [HAVING] [WINDOW]`.
    #[verifier::rlimit(100)]
    pub(crate) fn parse_select_stmt(&mut self) -> (res: Option<Select>)
        requires
            old(self).wf(),
        ensures
            final(self).moved(*old(self)),
            res is Some ==> final(self).at() > old(self).at(),
            res is Some <==> old(self).kind() == Some(TokenKind::Keyword(Keyword::Select)),
            simple_select_at(old(self).toks(), old(self).at()) ==> (res matches Some(sel) && is_simple_select(
                sel,
                old(self).toks(),
                old(self).at(),
            )) && final(self).at() == select_end(old(self).toks(), old(self).at()),
            join_select_at(old(self).toks(), old(self).at()) ==> (res matches Some(sel) && is_join_select(
                sel,
                old(self).toks(),
                old(self).at(),
            )) && final(self).at() == table_chain_end(old(self).toks(), old(self).at() + 3),
            list_core_at(old(self).toks(), old(self).at()) ==> (res matches Some(sel) && is_list_select(
                sel,
                old(self).toks(),
                old(self).at(),
            )) && final(self).at() == list_select_end(old(self).toks(), old(self).at()),
        decreases old(self).rem(), 17nat,
    {
        proof {
            let ts = self.toks();
            let p = self.at();
            if list_core_at(ts, p) {
                assert(item_list(ts, p + 1, item_count(ts, p + 1)));
                assert(item_pos(ts, p + 1, 0) == p + 1);
                assert(item_ok(ts, item_pos(ts, p + 1, 0)));
            }
        }
        self.eat_kw(Keyword::Select)?;
        let distinct = match self.parse_distinct() {
            Some(d) => d,
            None => SetQuantifier::All,
        };
        let s = self.current_pos();
        let items = self.parse_projection();
        let projection = Loc::new(self.span_from(s), Projection { list: items });
        proof {
            let ts = self.toks();
            let p = old(self).at();
            if list_core_at(ts, p) {
                assert(self.at() == items_end(ts, p + 1));
                assert(items_are(items, ts, p + 1, item_count(ts, p + 1)));
            }
        }
        let s = self.current_pos();
        let from = match self.parse_from() {
            Some(f) => Some(Loc::new(self.span_from(s), f)),
            None => None,
        };
        let s = self.current_pos();
        let where_clause = match self.clause_expr(Keyword::Where) {
            Some(expr) => Some(Loc::new(self.span_from(s), Where { expr })),
            None => None,
        };
        let s = self.current_pos();
        let group_by = match self.parse_group_by() {
            Some(g) => Some(Loc::new(self.span_from(s), g)),
            None => None,
        };
        let having = self.clause_expr(Keyword::Having);
        let s = self.current_pos();
        let window = match self.parse_window_clause() {
            Some(w) => Some(Loc::new(self.span_from(s), w)),
            None => None,
        };
        Some(
            Select {
                distinct,
                projection,
                from,
                where_clause,
                group_by,
                having,
                window,
                qualify: None,
            },
        )
    }

    /// The select items; none where none can be read.
    pub(crate) fn parse_projection(&mut self) -> (res: DelimitedList<Loc<ProjectionItem>>)
        requires
            old(self).wf(),
        ensures
            final(self).moved(*old(self)),
            ({
                let ts = old(self).toks();
                let p = old(self).at();
                &&& closer_kind(kind_at(ts, p)) ==> res.items@.len() == 0 && final(self).at() == p
                &&& lone_literal_at(ts, p) && closer_kind(kind_at(ts, p + 1)) ==> res.items@.len() == 1 && res.items@[0].item.expr.item
                    == literal_expr_at(ts, p) && final(self).at() == p + 1
                &&& simple_item_at(ts, p) && clause_end_kind(kind_at(ts, p + 1)) ==> res.items@.len() == 1
                    && simple_item_is(res.items@[0].item.expr.item, ts, p) && res.items@[0].item.alias is None
                    && final(self).at() == p + 1
            }),
            forall|m: nat| #[trigger] item_list(old(self).toks(), old(self).at(), m) ==> items_are(
                res,
                old(self).toks(),
                old(self).at(),
                m,
            ) && final(self).at() == item_end(old(self).toks(), item_pos(old(self).toks(), old(self).at(), (m - 1) as nat)),
        decreases old(self).rem(), 13nat,
    {
        match self.parse_select_item_list1() {
            Some(l) => l,
            None => DelimitedList::new(),
        }
    }

    pub(crate) fn parse_select_item(&mut self) -> (res: Option<ProjectionItem>)
        requires
            old(self).wf(),
        ensures
            final(self).moved(*old(self)),
            res is Some ==> final(self).at() > old(self).at(),
            ({
                let ts = old(self).toks();
                let p = old(self).at();
                &&& lone_literal_at(ts, p) && !ident_kind(kind_at(ts, p + 1)) && !kw_at(ts, p + 1, Keyword::As) ==> (
                res matches Some(it) && it.expr.item == literal_expr_at(ts, p) && it.alias is None) && final(self).at() == p + 1
                &&& simple_item_at(ts, p) && !ident_kind(kind_at(ts, p + 1)) && !kw_at(ts, p + 1, Keyword::As) ==> (
                res matches Some(it) && simple_item_is(it.expr.item, ts, p) && it.alias is None) && final(self).at() == p + 1
            }),
            closer_kind(kind_at(old(self).toks(), old(self).at())) ==> res is None && final(self).at() == old(self).at(),
            item_ok(old(self).toks(), old(self).at()) ==> (res matches Some(it) && simple_item_is(
                it.expr.item,
                old(self).toks(),
                old(self).at(),
            ) && alias_of(it.alias) == alias_at(old(self).toks(), old(self).at() + 1)) && final(self).at() == item_end(
                old(self).toks(),
                old(self).at(),
            ),
        decreases old(self).rem(), 11nat,
    {
        let s = self.current_pos();
        let e = self.parse_expr()?;
        let expr = Loc::new(self.span_from(s), e);
        let alias = self.parse_alias();
        Some(ProjectionItem { expr, alias })
    }

    /// `AS name`, or a bare name.
    pub(crate) fn parse_alias(&mut self) -> (res: Option<Loc<SpannedStr>>)
        requires
            old(self).wf(),
        ensures
            final(self).moved(*old(self)),
            res is Some ==> final(self).at() > old(self).at(),
            ({
                let ts = old(self).toks();
                let p = old(self).at();
                &&& ident_kind(kind_at(ts, p)) ==> (res matches Some(a) && a.item == ts[p].span) && final(self).at() == p + 1
                &&& kw_at(ts, p, Keyword::As) && ident_kind(kind_at(ts, p + 1)) ==> (res matches Some(a) && a.item
                    == ts[p + 1].span) && final(self).at() == p + 2
                &&& !ident_kind(kind_at(ts, p)) && !kw_at(ts, p, Keyword::As) ==> res is None && final(self).at() == p
                &&& kw_at(ts, p, Keyword::As) && !ident_kind(kind_at(ts, p + 1)) ==> res is None
            }),
    {
        if self.eat_kw(Keyword::As).is_some() {
            let s = self.current_pos();
            let id = self.parse_ident()?;
            return Some(Loc::new(self.span_from(s), id));
        }
        match self.tokens.current_kind() {
            Some(TokenKind::Identifier) | Some(TokenKind::IdentifierQuoted(_)) => {
                let s = self.current_pos();
                let id = self.parse_ident()?;
                Some(Loc::new(self.span_from(s), id))
            },
            _ => None,
        }
    }

    pub(crate) fn parse_from(&mut self) -> (res: Option<FromClause>)
        requires
            old(self).wf(),
        ensures
            final(self).moved(*old(self)),
            res is Some ==> final(self).at() > old(self).at(),
            ({
                let ts = old(self).toks();
                let p = old(self).at();
                &&& res is Some <==> kw_at(ts, p, Keyword::From)
                &&& res is None ==> final(self).at() == p
                &&& kw_at(ts, p, Keyword::From) && ident_kind(kind_at(ts, p + 1)) && from_end_kind(kind_at(ts, p + 2)) ==> (
                res matches Some(f) && f.sources.items@.len() == 1 && (f.sources.items@[0].item matches TableRef::Factor(tf)
                    && tf.item matches TableFactor::Named(n) && one_part_name_at(n.item.name, ts, p + 1) && n.item.alias is None))
                    && final(self).at() == p + 2
                &&& kw_at(ts, p, Keyword::From) && table_chain_at(ts, p + 1) && kind_at(ts, table_chain_end(ts, p + 1)) != Some(TokenKind::Comma)
                    ==> (res matches Some(f) && f.sources.items@.len() == 1 && join_tree_is(
                    f.sources.items@[0].item,
                    ts,
                    p + 1,
                    table_join_count(ts, p + 1),
                )) && final(self).at() == table_chain_end(ts, p + 1)
            }),
        decreases old(self).rem(), 5nat,
    {
        self.eat_kw(Keyword::From)?;
        let sources = match self.parse_table_ref_list1() {
            Some(l) => l,
            None => DelimitedList::new(),
        };
        Some(FromClause { sources })
    }

    pub(crate) fn parse_group_by(&mut self) -> (res: Option<GroupBy>)
        requires
            old(self).wf(),
        ensures
            final(self).moved(*old(self)),
            res is Some ==> final(self).at() > old(self).at(),
            ({
                let ts = old(self).toks();
                let p = old(self).at();
                &&& !kw_at(ts, p, Keyword::Group) ==> res is None && final(self).at() == p
                &&& res matches Some(g) ==> g.items.items@.len() >= 1
                &&& kw_at(ts, p, Keyword::Group) && kw_at(ts, p + 1, Keyword::By) && lone_literal_at(ts, p + 2) && closer_kind(
                    kind_at(ts, p + 3),
                ) ==> (res matches Some(g) && g.items.items@.len() == 1)
                &&& kw_at(ts, p, Keyword::Group) && kw_at(ts, p + 1, Keyword::By) && simple_item_at(ts, p + 2) && kind_at(
                    ts,
                    p + 3,
                ) != Some(TokenKind::Comma) ==> (res matches Some(g) && g.items.items@.len() == 1 && (
                g.items.items@[0].item matches GroupByItem::Expr(e) && simple_item_is(e.item, ts, p + 2)))
                    && final(self).at() == p + 3
            }),
        decreases old(self).rem(), 5nat,
    {
        self.eat_kw(Keyword::Group)?;
        self.eat_kw(Keyword::By)?;
        let items = self.parse_group_by_item_list1()?;
        Some(GroupBy { items })
    }

    pub(crate) fn parse_group_by_item(&mut self) -> (res: Option<GroupByItem>)
        requires
            old(self).wf(),
        ensures
            final(self).moved(*old(self)),
            res is Some ==> final(self).at() > old(self).at(),
            lone_literal_at(old(self).toks(), old(self).at()) ==> (res matches Some(GroupByItem::Expr(e)) && e.item == literal_expr_at(old(self).toks(), old(self).at())) && final(self).at() == old(self).at() + 1,
            simple_item_at(old(self).toks(), old(self).at()) ==> (res matches Some(GroupByItem::Expr(e)) && simple_item_is(
                e.item,
                old(self).toks(),
                old(self).at(),
            )) && final(self).at() == old(self).at() + 1,
        decreases old(self).rem(), 11nat,
    {
        let s = self.current_pos();
        let e = self.parse_expr()?;
        Some(GroupByItem::Expr(Loc::new(self.span_from(s), e)))
    }

    /// `WINDOW name AS (spec), ...`
    pub(crate) fn parse_window_clause(&mut self) -> (res: Option<Window>)
        requires
            old(self).wf(),
        ensures
            final(self).moved(*old(self)),
            res is Some ==> final(self).at() > old(self).at(),
            !kw_at(old(self).toks(), old(self).at(), Keyword::Window) ==> res is None && final(self).at() == old(self).at(),
            res matches Some(w) ==> w.windows@.len() >= 1,
            single_empty_window(old(self).toks(), old(self).at()) ==> (res matches Some(w) && w.windows@.len() == 1),
        decreases old(self).rem(), 5nat,
    {
        let ghost p0 = self.at();
        self.eat_kw(Keyword::Window)?;
        let mut windows: Vec<Loc<WindowDef>> = Vec::new();
        loop
            invariant_except_break
                single_empty_window(old(self).toks(), p0) ==> windows@.len() == 0 && self.at() == p0 + 1,
            invariant
                self.moved(*old(self)),
                self.at() > p0,
                p0 == old(self).at(),
                kw_at(old(self).toks(), p0, Keyword::Window),
            ensures
                self.moved(*old(self)),
                self.at() > p0,
                windows@.len() >= 1,
                single_empty_window(old(self).toks(), p0) ==> windows@.len() == 1,
            decreases self.rem(),
        {
            let name = self.parse_ident()?;
            self.eat_kw(Keyword::As)?;
            self.eat(TokenKind::LeftParen)?;
            let s = self.current_pos();
            let sp = self.parse_window_spec()?;
            let spec = Loc::new(self.span_from(s), sp);
            let _ = self.eat(TokenKind::RightParen);
            windows.push(Loc::new(name, WindowDef { name, spec }));
            if self.eat(TokenKind::Comma).is_some() {
                continue;
            }
            break;
        }
        Some(Window { windows })
    }

    /// A table factor and the joins after it, left to right.
    #[verifier::spinoff_prover]
    pub(crate) fn parse_table_ref(&mut self) -> (res: Option<TableRef>)
        requires
            old(self).wf(),
        ensures
            final(self).moved(*old(self)),
            res is Some ==> final(self).at() > old(self).at(),
            ident_kind(kind_at(old(self).toks(), old(self).at())) && closer_kind(kind_at(old(self).toks(), old(self).at() + 1)) ==> (res matches Some(TableRef::Factor(f)) && f.item is Named) && final(self).at() == old(self).at() + 1,
            res is Some ==> (res->0 is Factor || res->0 is Join),
            ident_kind(kind_at(old(self).toks(), old(self).at())) && from_end_kind(kind_at(old(self).toks(), old(self).at() + 1))
                ==> (res matches Some(TableRef::Factor(f)) && f.item matches TableFactor::Named(n) && one_part_name_at(
                n.item.name,
                old(self).toks(),
                old(self).at(),
            ) && n.item.alias is None) && final(self).at() == old(self).at() + 1,
            ({
                let ts = old(self).toks();
                let p = old(self).at();
                forall|m: nat| named_factor_at(ts, p) && #[trigger] join_chain(ts, named_factor_end(ts, p), m)
                    ==> (res matches Some(r) && join_tree_is(r, ts, p, m)) && final(self).at() == chain_pos(
                    ts,
                    named_factor_end(ts, p),
                    m,
                )
            }),
        decreases old(self).rem(), 5nat,
    {
        let ghost p0 = self.at();
        let ghost ts0 = self.toks();
        let ghost e0 = named_factor_end(ts0, p0);
        let ghost mut i: nat = 0;
        let start = self.current_pos();
        let mut left = self.parse_table_factor()?;
        loop
            invariant
                self.moved(*old(self)),
                self.at() > p0,
                p0 == old(self).at(),
                ts0 == old(self).toks(),
                e0 == named_factor_end(ts0, p0),
                start == spec_current_pos(ts0, p0),
                forall|m: nat| named_factor_at(ts0, p0) && #[trigger] join_chain(ts0, e0, m) ==> i <= m && self.at()
                    == chain_pos(ts0, e0, i) && join_tree_is(left, ts0, p0, i),
                ident_kind(kind_at(old(self).toks(), p0)) && closer_kind(kind_at(old(self).toks(), p0 + 1)) ==> self.at()
                    == p0 + 1 && (left matches TableRef::Factor(f) && f.item is Named),
                ident_kind(kind_at(old(self).toks(), p0)) && from_end_kind(kind_at(old(self).toks(), p0 + 1)) ==> self.at()
                    == p0 + 1 && (left matches TableRef::Factor(f) && f.item matches TableFactor::Named(n) && one_part_name_at(
                    n.item.name,
                    old(self).toks(),
                    p0,
                ) && n.item.alias is None),
            ensures
                forall|m: nat| named_factor_at(ts0, p0) && #[trigger] join_chain(ts0, e0, m) ==> i == m && self.at()
                    == chain_pos(ts0, e0, i) && join_tree_is(left, ts0, p0, i),
                ident_kind(kind_at(old(self).toks(), p0)) && closer_kind(kind_at(old(self).toks(), p0 + 1)) ==> self.at()
                    == p0 + 1 && (left matches TableRef::Factor(f) && f.item is Named),
                ident_kind(kind_at(old(self).toks(), p0)) && from_end_kind(kind_at(old(self).toks(), p0 + 1)) ==> self.at()
                    == p0 + 1 && (left matches TableRef::Factor(f) && f.item matches TableFactor::Named(n) && one_part_name_at(
                    n.item.name,
                    old(self).toks(),
                    p0,
                ) && n.item.alias is None),
            decreases self.rem(),
        {
            let ghost ei = self.at();
            let kind = match self.parse_join_kind() {
                Some(k) => k,
                None => {
                    proof {
                        assert forall|m: nat| named_factor_at(ts0, p0) && #[trigger] join_chain(ts0, e0, m) implies i
                            == m by {
                            if i < m {
                                assert(join_step_ok(ts0, chain_pos(ts0, e0, i)));
                            }
                        };
                    }
                    break;
                },
            };
            proof {
                assert forall|m: nat| named_factor_at(ts0, p0) && #[trigger] join_chain(ts0, e0, m) implies i < m
                    && join_step_ok(ts0, ei) by {
                    assert(chain_pos(ts0, e0, i) == ei);
                    assert(i != m);
                    assert(join_step_ok(ts0, chain_pos(ts0, e0, i)));
                };
            }
            let ghost q = self.at();
            let right_start = self.current_pos();
            let right = match self.parse_table_factor() {
                Some(r) => r,
                None => {
                    proof {
                        assert forall|m: nat| named_factor_at(ts0, p0) && #[trigger] join_chain(ts0, e0, m) implies false by {
                            assert(join_step_ok(ts0, ei));
                        };
                    }
                    return None;
                },
            };
            let constraint = self.parse_join_constraint();
            let right_end = self.prev_end(right_start);
            left =
            TableRef::Join(
                Loc::new(
                    Span::new(start, right_end),
                    Join {
                        left: Box::new(Loc::new(Span::new(start, right_end), left)),
                        kind,
                        right: Box::new(Loc::new(Span::new(right_start, right_end), right)),
                        constraint,
                    },
                ),
            );
            proof {
                assert forall|m: nat| named_factor_at(ts0, p0) && #[trigger] join_chain(ts0, e0, m) implies i + 1 <= m
                    && self.at() == chain_pos(ts0, e0, i + 1) && join_tree_is(left, ts0, p0, i + 1) by {
                    assert(chain_pos(ts0, e0, i) == ei);
                    assert(i != m);
                    assert(join_step_ok(ts0, chain_pos(ts0, e0, i)));
                    assert(chain_pos(ts0, e0, i + 1) == join_step_end(ts0, ei));
                };
                i = i + 1;
            }
        }
        Some(left)
    }

    /// `[LATERAL]` then a parenthesized source, a table function call, or a
    /// named table, each with an optional alias.
    #[verifier::rlimit(60)]
    pub(crate) fn parse_table_factor(&mut self) -> (res: Option<TableRef>)
        requires
            old(self).wf(),
        ensures
            final(self).moved(*old(self)),
            res is Some ==> final(self).at() > old(self).at(),
            ({
                let ts = old(self).toks();
                let p = old(self).at();
                let lat = kind_at(ts, p) == Some(TokenKind::Keyword(Keyword::Lateral));
                let q = if lat { p + 1 } else { p };
                let opens = kind_at(ts, q) == Some(TokenKind::LeftParen);
                let query_next = kind_at(ts, q + 1) == Some(TokenKind::Keyword(Keyword::Select))
                    || kind_at(ts, q + 1) == Some(TokenKind::Keyword(Keyword::With));
                &&& opens && query_next ==> (res matches Some(TableRef::Factor(f)) && (
                f.item matches TableFactor::Subquery(sq) && sq.item.lateral == lat))
                &&& opens && !query_next ==> (res is None || (res matches Some(TableRef::Factor(f))
                    && f.item is Parenthesized))
                &&& !opens ==> (res is None || (res matches Some(TableRef::Factor(f)) && ((
                f.item matches TableFactor::Function(g) && g.item.lateral == lat) || (
                f.item matches TableFactor::Named(n) && n.item.lateral == lat))))
                &&& res matches Some(TableRef::Factor(f)) ==> f.span.start == spec_current_pos(ts, p)
                    && f.span.end == spec_prev_end(ts, final(self).at(), f.span.start)
            }),
            ident_kind(kind_at(old(self).toks(), old(self).at())) && closer_kind(kind_at(old(self).toks(), old(self).at() + 1)) ==> (res matches Some(TableRef::Factor(f)) && f.item is Named) && final(self).at() == old(self).at() + 1,
            ({
                let ts = old(self).toks();
                let p = old(self).at();
                let lat = kind_at(ts, p) == Some(TokenKind::Keyword(Keyword::Lateral));
                let q = if lat { p + 1 } else { p };
                &&& lone_name_at(ts, q) && kind_at(ts, q + 1) != Some(TokenKind::LeftParen) ==> (res matches Some(
                    TableRef::Factor(f),
                ) && f.item matches TableFactor::Named(n) && n.item.lateral == lat && one_part_name_at(
                    n.item.name,
                    ts,
                    q,
                ) && alias_of(n.item.alias) == alias_at(ts, q + 1)) && (alias_settled(ts, q + 1)
                    ==> final(self).at() == q + 1 + alias_len(ts, q + 1))
                &&& lone_name_at(ts, q) && kind_at(ts, q + 1) == Some(TokenKind::LeftParen) && kind_at(ts, q + 2)
                    == Some(TokenKind::RightParen) ==> function_factor_at(res, ts, lat, q + 3, 0, final(self).at())
                &&& lone_name_at(ts, q) && kind_at(ts, q + 1) == Some(TokenKind::LeftParen) && lone_literal_at(ts, q + 2)
                    && kind_at(ts, q + 3) == Some(TokenKind::RightParen) ==> function_factor_at(
                    res,
                    ts,
                    lat,
                    q + 4,
                    1,
                    final(self).at(),
                ) && (res matches Some(TableRef::Factor(f)) ==> f.item matches TableFactor::Function(g)
                    ==> g.item.args.items@[0].item == literal_expr_at(ts, q + 2))
                &&& lone_name_at(ts, q) ==> (res matches Some(TableRef::Factor(f)) ==> f.item matches TableFactor::Function(
                    g,
                ) ==> one_part_name_at(g.item.name, ts, q))
                &&& name_part_kind_v1(kind_at(ts, q)) && kind_at(ts, name_end(ts, q + 1)) != Some(TokenKind::LeftParen)
                    ==> (res matches Some(TableRef::Factor(f)) && f.item matches TableFactor::Named(n) && n.item.lateral
                    == lat && qname_at(n.item.name, ts, q) && alias_of(n.item.alias) == alias_at(ts, name_end(ts, q + 1))
                    && n.span == f.span) && (alias_settled(ts, name_end(ts, q + 1)) ==> final(self).at() == name_end(
                    ts,
                    q + 1,
                ) + alias_len(ts, name_end(ts, q + 1)))
                &&& !lat && named_factor_at(ts, p) ==> (res matches Some(r) && named_factor_is(r, ts, p))
                    && final(self).at() == named_factor_end(ts, p)
                &&& kind_at(ts, q) == Some(TokenKind::LeftParen) && list_select_at(ts, q + 1) && kind_at(
                    ts,
                    list_select_end(ts, q + 1),
                ) == Some(TokenKind::RightParen) ==> (res matches Some(TableRef::Factor(f)) && f.item matches TableFactor::Subquery(
                    sq,
                ) && sq.item.lateral == lat && list_select_query(sq.item.query.item, ts, q + 1) && alias_of(sq.item.alias)
                    == alias_at(ts, list_select_end(ts, q + 1) + 1)) && (alias_settled(ts, list_select_end(ts, q + 1) + 1)
                    ==> final(self).at() == list_select_end(ts, q + 1) + 1 + alias_len(ts, list_select_end(ts, q + 1) + 1))
                &&& forall|m: nat| kind_at(ts, q) == Some(TokenKind::LeftParen) && named_factor_at(ts, q + 1)
                    && #[trigger] join_chain(ts, named_factor_end(ts, q + 1), m) ==> (res matches Some(
                    TableRef::Factor(f),
                ) && f.item matches TableFactor::Parenthesized(inner) && join_tree_is(inner.item, ts, q + 1, m)) && (
                kind_at(ts, chain_pos(ts, named_factor_end(ts, q + 1), m)) == Some(TokenKind::RightParen)
                    ==> final(self).at() == chain_pos(ts, named_factor_end(ts, q + 1), m) + 1)
            }),
        decreases old(self).rem(), 4nat,
    {
        let start = self.current_pos();
        let lateral = self.eat_kw(Keyword::Lateral).is_some();
        if self.eat(TokenKind::LeftParen).is_some() {
            return self.parse_paren_table_factor(start, lateral);
        }
        let ns = self.current_pos();
        let qn = self.parse_qname()?;
        let name = Loc::new(self.span_from(ns), qn);
        if self.eat(TokenKind::LeftParen).is_some() {
            return self.parse_function_factor(start, lateral, name);
        }
        let alias = self.parse_alias();
        let end = self.prev_end(start);
        Some(
            TableRef::Factor(
                Loc::new(
                    Span::new(start, end),
                    TableFactor::Named(
                        Loc::new(Span::new(start, end), NamedTableFactor { name, alias, lateral }),
                    ),
                ),
            ),
        )
    }

    /// After `name(`: the arguments up to `)`, an alias, and a column list.
    pub(crate) fn parse_function_factor(&mut self, start: usize, lateral: bool, name: Loc<QualifiedName>) -> (res:
        Option<TableRef>)
        requires
            old(self).wf(),
        ensures
            final(self).moved(*old(self)),
            ({
                let ts = old(self).toks();
                let p = old(self).at();
                &&& kind_at(ts, p) == Some(TokenKind::RightParen) ==> function_factor_at(
                    res,
                    ts,
                    lateral,
                    p + 1,
                    0,
                    final(self).at(),
                )
                &&& lone_literal_at(ts, p) && kind_at(ts, p + 1) == Some(TokenKind::RightParen) ==> function_factor_at(
                    res,
                    ts,
                    lateral,
                    p + 2,
                    1,
                    final(self).at(),
                ) && (res matches Some(TableRef::Factor(f)) ==> f.item matches TableFactor::Function(g)
                    ==> g.item.args.items@[0].item == literal_expr_at(ts, p))
                &&& res is Some ==> (res matches Some(TableRef::Factor(f)) && f.item matches TableFactor::Function(g)
                    && g.item.name == name && g.item.lateral == lateral && f.span.start == start && f.span.end == spec_prev_end(
                    ts,
                    final(self).at(),
                    start,
                ))
            }),
        decreases old(self).rem(), 12nat,
    {
        let args = if self.tokens.current_kind() == Some(TokenKind::RightParen) {
            DelimitedList::new()
        } else {
            self.parse_expr_list1()?
        };
        let _ = self.eat(TokenKind::RightParen);
        let ghost a = self.at();
        let ghost ts = self.toks();
        let alias = self.parse_alias();
        assert(alias_settled(ts, a) ==> self.at() == a + alias_len(ts, a));
        assert(alias_of(alias) == alias_at(ts, a));
        let columns = if self.eat(TokenKind::LeftParen).is_some() {
            let cols = if self.tokens.current_kind() == Some(TokenKind::RightParen) {
                DelimitedList::new()
            } else {
                self.parse_column_alias_list1()?
            };
            let _ = self.eat(TokenKind::RightParen);
            Some(cols)
        } else {
            None
        };
        let end = self.prev_end(start);
        return Some(
            TableRef::Factor(
                Loc::new(
                    Span::new(start, end),
                    TableFactor::Function(
                        Loc::new(
                            Span::new(start, end),
                            FunctionTableFactor { name, args, alias, columns, lateral },
                        ),
                    ),
                ),
            ),
        );
    }

    /// After `(`: a subquery (starting with `SELECT` or `WITH`) or a
    /// parenthesized table source.
    #[verifier::rlimit(40)]
    pub(crate) fn parse_paren_table_factor(&mut self, start: usize, lateral: bool) -> (res: Option<TableRef>)
        requires
            old(self).wf(),
        ensures
            final(self).moved(*old(self)),
            ({
                let k = old(self).kind();
                let query_next = k == Some(TokenKind::Keyword(Keyword::Select)) || k == Some(
                    TokenKind::Keyword(Keyword::With),
                );
                &&& query_next ==> (res matches Some(TableRef::Factor(f)) && (
                f.item matches TableFactor::Subquery(sq) && sq.item.lateral == lateral))
                &&& !query_next ==> (res is None || (res matches Some(TableRef::Factor(f))
                    && f.item is Parenthesized))
                &&& res matches Some(TableRef::Factor(f)) ==> f.span.start == start && f.span.end
                    == spec_prev_end(old(self).toks(), final(self).at(), start)
                &&& ({
                    let ts = old(self).toks();
                    let q = old(self).at();
                    let r = list_select_end(ts, q);
                    list_select_at(ts, q) && kind_at(ts, r) == Some(TokenKind::RightParen) ==> (res matches Some(
                        TableRef::Factor(f),
                    ) && f.item matches TableFactor::Subquery(sq) && list_select_query(sq.item.query.item, ts, q)
                        && alias_of(sq.item.alias) == alias_at(ts, r + 1)) && (alias_settled(ts, r + 1) ==> final(self).at()
                        == r + 1 + alias_len(ts, r + 1))
                })
                &&& ({
                    let ts = old(self).toks();
                    let q = old(self).at();
                    forall|m: nat| named_factor_at(ts, q) && #[trigger] join_chain(ts, named_factor_end(ts, q), m)
                        ==> (res matches Some(TableRef::Factor(f)) && f.item matches TableFactor::Parenthesized(inner)
                        && join_tree_is(inner.item, ts, q, m) && inner.span.start == spec_current_pos(ts, q)) && (kind_at(
                        ts,
                        chain_pos(ts, named_factor_end(ts, q), m),
                    ) == Some(TokenKind::RightParen) ==> final(self).at() == chain_pos(ts, named_factor_end(ts, q), m) + 1)
                })
            }),
        decreases old(self).rem(), 21nat,
    {
        let k = self.tokens.current_kind();
        let factor = if k == Some(TokenKind::Keyword(Keyword::Select)) || k == Some(
            TokenKind::Keyword(Keyword::With),
        ) {
            let qs = self.current_pos();
            let q = self.parse_query();
            let query = Loc::new(self.span_from(qs), q);
            let _ = self.eat(TokenKind::RightParen);
            let alias = self.parse_alias();
            let end = self.prev_end(start);
            TableFactor::Subquery(
                Loc::new(Span::new(start, end), SubqueryTableFactor { query, alias, lateral }),
            )
        } else {
            let s = self.current_pos();
            let t = self.parse_table_ref()?;
            let inner = Box::new(Loc::new(self.span_from(s), t));
            let _ = self.eat(TokenKind::RightParen);
            TableFactor::Parenthesized(inner)
        };
        let end = self.prev_end(start);
        Some(TableRef::Factor(Loc::new(Span::new(start, end), factor)))
    }

    /// `[NATURAL]` then `[INNER] JOIN`, `LEFT|RIGHT|FULL [OUTER] JOIN`,
    /// `CROSS JOIN` or `JOIN`.
    pub(crate) fn parse_join_kind(&mut self) -> (res: Option<JoinKind>)
        requires
            old(self).wf(),
        ensures
            final(self).moved(*old(self)),
            res is Some ==> final(self).at() > old(self).at(),
            match spec_join_kind(old(self).toks(), old(self).at()) {
                Some((k, n)) => res == Some(k) && final(self).at() == old(self).at() + n,
                None => res is None,
            },
            from_end_kind(kind_at(old(self).toks(), old(self).at())) ==> res is None && final(self).at() == old(self).at(),
            no_join_at(old(self).toks(), old(self).at()) ==> res is None && final(self).at() == old(self).at(),
    {
        let natural = self.eat_kw(Keyword::Natural).is_some();
        let k = match self.tokens.current_kind() {
            Some(TokenKind::Keyword(k)) => k,
            _ => return None,
        };
        if k == Keyword::Inner {
            let _ = self.tokens.advance();
            self.eat_kw(Keyword::Join)?;
            Some(JoinKind { base: JoinBase::Inner, outer: false, natural })
        } else if k == Keyword::Left || k == Keyword::Right || k == Keyword::Full {
            let _ = self.tokens.advance();
            let outer = self.eat_kw(Keyword::Outer).is_some();
            self.eat_kw(Keyword::Join)?;
            let base = if k == Keyword::Left {
                JoinBase::Left
            } else if k == Keyword::Right {
                JoinBase::Right
            } else {
                JoinBase::Full
            };
            Some(JoinKind { base, outer, natural })
        } else if k == Keyword::Cross {
            let _ = self.tokens.advance();
            self.eat_kw(Keyword::Join)?;
            Some(JoinKind { base: JoinBase::Cross, outer: false, natural })
        } else if k == Keyword::Join {
            let _ = self.tokens.advance();
            Some(JoinKind { base: JoinBase::Inner, outer: false, natural })
        } else {
            None
        }
    }

    /// `ON expr` or `USING (columns)`.
    pub(crate) fn parse_join_constraint(&mut self) -> (res: Option<Loc<JoinConstraint>>)
        requires
            old(self).wf(),
        ensures
            final(self).moved(*old(self)),
            res is Some ==> final(self).at() > old(self).at(),
            ({
                let ts = old(self).toks();
                let p = old(self).at();
                &&& !(kw_at(ts, p, Keyword::On) || kw_at(ts, p, Keyword::Using)) ==> res is None && final(self).at() == p
                &&& res matches Some(c) ==> (c.item is On) == kw_at(ts, p, Keyword::On)
                &&& kw_at(ts, p, Keyword::On) && lone_literal_at(ts, p + 1) ==> (res matches Some(c) && (c.item matches JoinConstraint::On(e)
                    && e.item == literal_expr_at(ts, p + 1)))
                &&& kw_at(ts, p, Keyword::Using) && kind_at(ts, p + 1) == Some(TokenKind::LeftParen) && ident_kind(
                    kind_at(ts, p + 2),
                ) && closer_kind(kind_at(ts, p + 3)) ==> (res matches Some(c) && (c.item matches JoinConstraint::Using(cols)
                    && cols.items@.len() == 1 && cols.items@[0].item == ts[p + 2].span))
                &&& res matches Some(c) ==> c.span.start == spec_current_pos(ts, p) && c.span.end == spec_prev_end(
                    ts,
                    final(self).at(),
                    c.span.start,
                )
                &&& constraint_ok(ts, p) ==> constraint_is(res, ts, p) && final(self).at() == p + constraint_len(ts, p)
            }),
        decreases old(self).rem(), 5nat,
    {
        let start = self.current_pos();
        if self.eat_kw(Keyword::On).is_some() {
            let s = self.current_pos();
            let e = self.parse_expr()?;
            let on = JoinConstraint::On(Loc::new(self.span_from(s), e));
            return Some(Loc::new(self.span_from(start), on));
        }
        if self.eat_kw(Keyword::Using).is_some() {
            self.eat(TokenKind::LeftParen)?;
            let columns = self.parse_ident_list1()?;
            let _ = self.eat(TokenKind::RightParen);
            return Some(Loc::new(self.span_from(start), JoinConstraint::Using(columns)));
        }
        None
    }

    /// `DISTINCT [ON (exprs)]`.
    pub(crate) fn parse_distinct(&mut self) -> (res: Option<SetQuantifier>)
        requires
            old(self).wf(),
        ensures
            final(self).moved(*old(self)),
            res is Some ==> final(self).at() > old(self).at(),
            ({
                let ts = old(self).toks();
                let p = old(self).at();
                &&& !kw_at(ts, p, Keyword::Distinct) ==> res is None && final(self).at() == p
                &&& kw_at(ts, p, Keyword::Distinct) && !kw_at(ts, p + 1, Keyword::On) ==> res == Some(SetQuantifier::Distinct)
                    && final(self).at() == p + 1
                &&& kw_at(ts, p, Keyword::Distinct) && kw_at(ts, p + 1, Keyword::On) ==> (res is None || res->0 is DistinctOn)
                &&& kw_at(ts, p, Keyword::Distinct) && kw_at(ts, p + 1, Keyword::On) && kind_at(ts, p + 2) == Some(TokenKind::LeftParen)
                    && kind_at(ts, p + 3) == Some(TokenKind::RightParen) ==> (res matches Some(SetQuantifier::DistinctOn(l))
                    && l.items@.len() == 0)
            }),
        decreases old(self).rem(), 5nat,
    {
        self.eat_kw(Keyword::Distinct)?;
        if self.eat_kw(Keyword::On).is_some() {
            self.eat(TokenKind::LeftParen)?;
            let items = if self.tokens.current_kind() == Some(TokenKind::RightParen) {
                DelimitedList::new()
            } else {
                self.parse_expr_list1()?
            };
            let _ = self.eat(TokenKind::RightParen);
            return Some(SetQuantifier::DistinctOn(items));
        }
        Some(SetQuantifier::Distinct)
    }

    /// A dotted name.
    pub(crate) fn parse_qname(&mut self) -> (res: Option<QualifiedName>)
        requires
            old(self).wf(),
        ensures
            final(self).moved(*old(self)),
            res is Some ==> final(self).at() > old(self).at(),
            res is Some <==> name_part_kind_v1(kind_at(old(self).toks(), old(self).at())),
            res is Some ==> res->0.parts.items@.len() >= 1,
            name_part_kind_v1(kind_at(old(self).toks(), old(self).at())) && kind_at(old(self).toks(), old(self).at() + 1)
                != Some(TokenKind::Dot) ==> res->0.parts.items@.len() == 1 && final(self).at() == old(self).at() + 1,
            res matches Some(q) ==> q.parts.items@[0].item == name_part_at(old(self).toks(), old(self).at()),
            res matches Some(q) ==> name_parts_at(q.parts, old(self).toks(), old(self).at()) && final(self).at()
                == name_end(old(self).toks(), old(self).at() + 1),
    {
        let parts = self.parse_name_part_list1()?;
        Some(QualifiedName { parts })
    }

    /// An identifier, `*`, or a keyword that is not reserved.
    pub(crate) fn parse_name_part(&mut self) -> (res: Option<NamePart>)
        requires
            old(self).wf(),
        ensures
            final(self).moved(*old(self)),
            res is Some ==> final(self).at() == old(self).at() + 1,
            res is None ==> final(self).at() == old(self).at(),
            res is Some <==> name_part_kind_v1(old(self).kind()),
            res matches Some(np) ==> np == name_part_at(old(self).toks(), old(self).at()),
    {
        if let Some(span) = self.parse_ident() {
            return Some(NamePart::Ident(span));
        }
        match self.tokens.current_kind() {
            Some(TokenKind::Operator(op)) => {
                if op.semantic_tag == OpTag::Mul {
                    let _ = self.tokens.advance();
                    return Some(NamePart::Star);
                }
                None
            },
            Some(TokenKind::Keyword(kw)) => {
                if !self.is_reserved_keyword(kw) {
                    let span = self.tokens.current()?.span;
                    let _ = self.tokens.advance();
                    return Some(NamePart::Ident(span));
                }
                None
            },
            _ => None,
        }
    }

    /// Whether the keyword is reserved: it cannot stand for a name.
    pub(crate) fn is_reserved_keyword(&self, kw: Keyword) -> (res: bool)
        ensures
            res == spec_is_reserved(kw),
    {
        match kw {
            Keyword::Select | Keyword::From | Keyword::Where | Keyword::Group | Keyword::Having
            | Keyword::Order | Keyword::Limit | Keyword::Offset | Keyword::Join | Keyword::Inner
            | Keyword::Left | Keyword::Right | Keyword::Full | Keyword::Cross | Keyword::On
            | Keyword::Using | Keyword::Union | Keyword::Intersect | Keyword::Except
            | Keyword::With | Keyword::As | Keyword::By | Keyword::Distinct | Keyword::All => true,
            _ => false,
        }
    }

    /// An identifier, quoted or not: its span.
    pub(crate) fn parse_ident(&mut self) -> (res: Option<SpannedStr>)
        requires
            old(self).wf(),
        ensures
            final(self).moved(*old(self)),
            res is Some <==> (old(self).kind() matches Some(TokenKind::Identifier)
                || old(self).kind() matches Some(TokenKind::IdentifierQuoted(_))),
            res is Some ==> final(self).at() == old(self).at() + 1 && res == Some(
                old(self).toks()[old(self).at()].span,
            ),
            res is None ==> final(self).at() == old(self).at(),
    {
        match self.tokens.current_kind() {
            Some(TokenKind::Identifier) | Some(TokenKind::IdentifierQuoted(_)) => {
                let span = self.tokens.current()?.span;
                let _ = self.tokens.advance();
                Some(span)
            },
            _ => None,
        }
    }

    /// `[PARTITION BY exprs] [ORDER BY ...] [frame]`; every part may be
    /// missing.
    pub(crate) fn parse_window_spec(&mut self) -> (res: Option<WindowSpec>)
        requires
            old(self).wf(),
        ensures
            final(self).moved(*old(self)),
            ({
                let ts = old(self).toks();
                let p = old(self).at();
                &&& kw_at(ts, p, Keyword::Partition) && !kw_at(ts, p + 1, Keyword::By) ==> res is None
                &&& res matches Some(w) ==> (w.partition_by is Some) == kw_at(ts, p, Keyword::Partition)
                &&& closer_kind(kind_at(ts, p)) ==> (res matches Some(w) && w.partition_by is None && w.order_by is None
                    && w.frame is None) && final(self).at() == p
            }),
        decreases old(self).rem(), 23nat,
    {
        let partition_by = if self.eat_kw(Keyword::Partition).is_some() {
            self.eat_kw(Keyword::By)?;
            Some(self.parse_expr_list1()?)
        } else {
            None
        };
        let s = self.current_pos();
        let order_by = match self.parse_order_by() {
            Some(o) => Some(Loc::new(self.span_from(s), o)),
            None => None,
        };
        let s = self.current_pos();
        let frame = match self.parse_window_frame() {
            Some(f) => Some(Box::new(Loc::new(self.span_from(s), f))),
            None => None,
        };
        Some(WindowSpec { partition_by, order_by, frame })
    }

    /// `ROWS|RANGE BETWEEN bound AND bound`.
    pub(crate) fn parse_window_frame(&mut self) -> (res: Option<WindowFrame>)
        requires
            old(self).wf(),
        ensures
            final(self).moved(*old(self)),
            res is Some ==> final(self).at() > old(self).at(),
            ({
                let ts = old(self).toks();
                let p = old(self).at();
                &&& !(kw_at(ts, p, Keyword::Rows) || kw_at(ts, p, Keyword::Range)) ==> res is None && final(self).at() == p
                &&& !op_at(ts, p + 1, OpTag::Between) ==> res is None
                &&& res matches Some(f) ==> f.unit == (if kw_at(ts, p, Keyword::Rows) { FrameUnit::Rows } else { FrameUnit::Range })
                    && f.end is Some
                &&& (kw_at(ts, p, Keyword::Rows) || kw_at(ts, p, Keyword::Range)) && op_at(ts, p + 1, OpTag::Between)
                    && kw_at(ts, p + 2, Keyword::Unbounded) && kw_at(ts, p + 3, Keyword::Preceding) && op_at(ts, p + 4, OpTag::And)
                    && kw_at(ts, p + 5, Keyword::Current) && kw_at(ts, p + 6, Keyword::Row) ==> (res matches Some(f)
                    && f.start.item == FrameBound::UnboundedPreceding && (f.end matches Some(e) && e.item == FrameBound::CurrentRow))
            }),
        decreases old(self).rem(), 14nat,
    {
        let unit = if self.eat_kw(Keyword::Rows).is_some() {
            FrameUnit::Rows
        } else if self.eat_kw(Keyword::Range).is_some() {
            FrameUnit::Range
        } else {
            return None;
        };
        if self.tokens.current_operator_tag() != Some(OpTag::Between) {
            return None;
        }
        let _ = self.tokens.advance();
        let s = self.current_pos();
        let b = self.parse_frame_bound()?;
        let start = Box::new(Loc::new(self.span_from(s), b));
        if self.tokens.current_operator_tag() == Some(OpTag::And) {
            let _ = self.tokens.advance();
        }
        let s = self.current_pos();
        let b = self.parse_frame_bound()?;
        let end = Some(Box::new(Loc::new(self.span_from(s), b)));
        Some(WindowFrame { unit, start, end })
    }

    /// `UNBOUNDED PRECEDING|FOLLOWING`, `CURRENT ROW`, or
    /// `expr PRECEDING|FOLLOWING`.
    pub(crate) fn parse_frame_bound(&mut self) -> (res: Option<FrameBound>)
        requires
            old(self).wf(),
        ensures
            final(self).moved(*old(self)),
            res is Some ==> final(self).at() > old(self).at(),
            ({
                let ts = old(self).toks();
                let p = old(self).at();
                &&& kw_at(ts, p, Keyword::Unbounded) && kw_at(ts, p + 1, Keyword::Preceding) ==> res == Some(
                    FrameBound::UnboundedPreceding,
                ) && final(self).at() == p + 2
                &&& kw_at(ts, p, Keyword::Unbounded) && kw_at(ts, p + 1, Keyword::Following) ==> res == Some(
                    FrameBound::UnboundedFollowing,
                ) && final(self).at() == p + 2
                &&& kw_at(ts, p, Keyword::Unbounded) && !kw_at(ts, p + 1, Keyword::Preceding) && !kw_at(ts, p + 1, Keyword::Following) ==> res is None
                &&& kw_at(ts, p, Keyword::Current) ==> (res is Some <==> kw_at(ts, p + 1, Keyword::Row))
                &&& kw_at(ts, p, Keyword::Current) && kw_at(ts, p + 1, Keyword::Row) ==> res == Some(FrameBound::CurrentRow)
                    && final(self).at() == p + 2
                &&& kind_at(ts, p) is None ==> res is None
                &&& lone_literal_at(ts, p) && kw_at(ts, p + 1, Keyword::Preceding) ==> (res matches Some(FrameBound::Preceding(e))
                    && e.item == literal_expr_at(ts, p))
                &&& lone_literal_at(ts, p) && kw_at(ts, p + 1, Keyword::Following) ==> (res matches Some(FrameBound::Following(e))
                    && e.item == literal_expr_at(ts, p))
            }),
        decreases old(self).rem(), 11nat,
    {
        match self.tokens.current_kind() {
            Some(TokenKind::Keyword(Keyword::Unbounded)) => {
                self.tokens.advance()?;
                if self.eat_kw(Keyword::Preceding).is_some() {
                    Some(FrameBound::UnboundedPreceding)
                } else {
                    self.eat_kw(Keyword::Following)?;
                    Some(FrameBound::UnboundedFollowing)
                }
            },
            Some(TokenKind::Keyword(Keyword::Current)) => {
                self.tokens.advance()?;
                self.eat_kw(Keyword::Row)?;
                Some(FrameBound::CurrentRow)
            },
            None => None,
            _ => {
                let s = self.current_pos();
                let e = self.parse_expr()?;
                let expr = Box::new(Loc::new(self.span_from(s), e));
                if self.eat_kw(Keyword::Preceding).is_some() {
                    Some(FrameBound::Preceding(expr))
                } else {
                    self.eat_kw(Keyword::Following)?;
                    Some(FrameBound::Following(expr))
                }
            },
        }
    }

    /// A clause keyword and the expression after it (`Empty` where none can
    /// be read).
    pub(crate) fn clause_expr(&mut self, kw: Keyword) -> (res: Option<Loc<Expr>>)
        requires
            old(self).wf(),
        ensures
            final(self).moved(*old(self)),
            res is Some <==> old(self).kind() == Some(TokenKind::Keyword(kw)),
            res is None ==> final(self).at() == old(self).at(),
            kw_at(old(self).toks(), old(self).at(), kw) && lone_literal_at(old(self).toks(), old(self).at() + 1) ==> (res matches Some(
                e,
            ) && e.item == literal_expr_at(old(self).toks(), old(self).at() + 1)) && final(self).at() == old(self).at() + 2,
        decreases old(self).rem(), 5nat,
    {
        self.eat_kw(kw)?;
        let s = self.current_pos();
        let e = match self.parse_expr() {
            Some(e) => e,
            None => Expr::Empty,
        };
        Some(Loc::new(self.span_from(s), e))
    }
}


/// The start of the token at `p`, or 0 past the end.
pub open spec fn spec_current_pos(ts: Seq<Token>, p: int) -> int {
    if 0 <= p < ts.len() {
        ts[p].span.start as int
    } else {
        0
    }
}

/// The end of the token before `p`, or `default` at the start.
pub open spec fn spec_prev_end(ts: Seq<Token>, p: int, default: usize) -> int {
    if 0 < p <= ts.len() {
        ts[p - 1].span.end as int
    } else {
        default as int
    }
}

impl<'a> Parser<'a> {
    /// Where the token at the position starts (0 past the end).
    pub(crate) fn current_pos(&self) -> (res: usize)
        requires
            self.wf(),
        ensures
            res == spec_current_pos(self.toks(), self.at()),
    {
        match self.tokens.current() {
            Some(t) => t.span.start,
            None => 0,
        }
    }

    /// Where the token before the position ends (`default` at the start).
    pub(crate) fn prev_end(&self, default: usize) -> (res: usize)
        requires
            self.wf(),
        ensures
            res == spec_prev_end(self.toks(), self.at(), default),
    {
        match self.tokens.prev() {
            Some(t) => t.span.end,
            None => default,
        }
    }

    /// The span from `start` to the end of the token before the position.
    pub(crate) fn span_from(&self, start: usize) -> (res: Span)
        requires
            self.wf(),
        ensures
            res.start == start,
            res.end == spec_prev_end(self.toks(), self.at(), start),
    {
        Span::new(start, self.prev_end(start))
    }

    /// Move past the token at the position if it has the kind.
    pub(crate) fn eat(&mut self, k: TokenKind) -> (res: Option<&'a Token>)
        requires
            old(self).wf(),
        ensures
            final(self).moved(*old(self)),
            old(self).kind() == Some(k) ==> final(self).at() == old(self).at() + 1 && res == Some(
                &old(self).toks()[old(self).at()],
            ),
            old(self).kind() != Some(k) ==> final(self).at() == old(self).at() && res is None,
    {
        if self.tokens.is_at(k) {
            self.tokens.advance()
        } else {
            None
        }
    }

    /// Move past the keyword if it is at the position.
    pub(crate) fn eat_kw(&mut self, kw: Keyword) -> (res: Option<&'a Token>)
        requires
            old(self).wf(),
        ensures
            final(self).moved(*old(self)),
            old(self).kind() == Some(TokenKind::Keyword(kw)) ==> final(self).at() == old(self).at()
                + 1 && res is Some,
            old(self).kind() != Some(TokenKind::Keyword(kw)) ==> final(self).at() == old(self).at()
                && res is None,
    {
        self.eat(TokenKind::Keyword(kw))
    }

    /// Move past an operator with the semantic tag if one is at the position.
    pub(crate) fn eat_op_tag(&mut self, tag: OpTag) -> (res: Option<&'a Token>)
        requires
            old(self).wf(),
        ensures
            final(self).moved(*old(self)),
            (old(self).kind() matches Some(TokenKind::Operator(op)) && op.semantic_tag == tag)
                ==> final(self).at() == old(self).at() + 1 && res is Some,
            !(old(self).kind() matches Some(TokenKind::Operator(op)) && op.semantic_tag == tag)
                ==> final(self).at() == old(self).at() && res is None,
            res matches Some(t) ==> *t == old(self).toks()[old(self).at()],
    {
        if self.tokens.current_operator_tag() == Some(tag) {
            self.tokens.advance()
        } else {
            None
        }
    }

    /// Identifiers separated by commas, at least one.
    pub(crate) fn parse_ident_list1(&mut self) -> (res: Option<DelimitedList<Loc<SpannedStr>>>)
        requires
            old(self).wf(),
        ensures
            final(self).moved(*old(self)),
            res is Some ==> final(self).at() > old(self).at(),
            res is Some <==> ident_kind(kind_at(old(self).toks(), old(self).at())),
            res matches Some(l) ==> l.items@.len() >= 1,
            ident_kind(kind_at(old(self).toks(), old(self).at())) && closer_kind(kind_at(old(self).toks(), old(self).at() + 1)) ==> (res matches Some(l) && l.items@.len() == 1 && l.items@[0].item == old(self).toks()[old(self).at()].span) && final(self).at() == old(self).at() + 1,
    {
        let ghost p0 = self.at();
        let mut list = DelimitedList::new();
        let s = self.current_pos();
        let first = self.parse_ident()?;
        list.items.push(Loc::new(self.span_from(s), first));
        loop
            invariant
                self.moved(*old(self)),
                self.at() > p0,
                p0 == old(self).at(),
                list.items@.len() >= 1,
                ident_kind(kind_at(old(self).toks(), p0)) && closer_kind(kind_at(old(self).toks(), p0 + 1)) ==> self.at() == p0 + 1 && list.items@.len() == 1 && list.items@[0].item == old(self).toks()[p0].span,
            decreases self.rem(),
        {
            if self.eat(TokenKind::Comma).is_none() {
                break;
            }
            let sep = match self.tokens.prev() {
                Some(t) => t.span,
                None => Span::new(0, 0),
            };
            list.seps.push(Loc::new(sep, TokenKind::Comma));
            let s = self.current_pos();
            match self.parse_ident() {
                Some(item) => {
                    list.items.push(Loc::new(self.span_from(s), item));
                },
                None => break,
            }
        }
        Some(list)
    }

    /// Name parts separated by dots, at least one.
    pub(crate) fn parse_name_part_list1(&mut self) -> (res: Option<DelimitedList<Loc<NamePart>>>)
        requires
            old(self).wf(),
        ensures
            final(self).moved(*old(self)),
            res is Some ==> final(self).at() > old(self).at(),
            res is Some <==> name_part_kind_v1(kind_at(old(self).toks(), old(self).at())),
            res matches Some(l) ==> l.items@.len() >= 1,
            name_part_kind_v1(kind_at(old(self).toks(), old(self).at())) && kind_at(old(self).toks(), old(self).at() + 1) != Some(TokenKind::Dot) ==> (res matches Some(l) && l.items@.len() == 1) && final(self).at() == old(self).at() + 1,
            res matches Some(l) ==> l.items@[0].item == name_part_at(old(self).toks(), old(self).at())
                && l.items@[0].span == old(self).toks()[old(self).at()].span,
            res matches Some(l) ==> name_parts_at(l, old(self).toks(), old(self).at()) && final(self).at()
                == name_end(old(self).toks(), old(self).at() + 1),
    {
        let ghost p0 = self.at();
        let mut list = DelimitedList::new();
        let s = self.current_pos();
        let first = self.parse_name_part()?;
        list.items.push(Loc::new(self.span_from(s), first));
        loop
            invariant_except_break
                self.at() == p0 + 2 * list.items@.len() - 1,
                list.seps@.len() == list.items@.len() - 1,
                name_end(old(self).toks(), p0 + 1) == name_end(old(self).toks(), self.at()),
                name_tail_count(old(self).toks(), p0 + 1) == list.items@.len() - 1 + name_tail_count(old(self).toks(), self.at()),
            invariant
                self.moved(*old(self)),
                self.at() > p0,
                p0 == old(self).at(),
                list.items@.len() >= 1,
                list.items@[0].item == name_part_at(old(self).toks(), p0),
                list.items@[0].span == old(self).toks()[p0].span,
                name_part_kind_v1(kind_at(old(self).toks(), p0)) && kind_at(old(self).toks(), p0 + 1) != Some(TokenKind::Dot) ==> self.at() == p0 + 1 && list.items@.len() == 1,
                forall|i: int| 0 <= i < list.items@.len() ==> (#[trigger] list.items@[i]).item == name_part_at(old(self).toks(), p0 + 2 * i)
                    && list.items@[i].span == old(self).toks()[p0 + 2 * i].span,
                forall|i: int| 0 <= i < list.seps@.len() ==> (#[trigger] list.seps@[i]).item == TokenKind::Dot
                    && list.seps@[i].span == old(self).toks()[p0 + 2 * i + 1].span,
            ensures
                self.moved(*old(self)),
                name_parts_at(list, old(self).toks(), p0),
                self.at() == name_end(old(self).toks(), p0 + 1),
                list.items@.len() >= 1,
                list.items@[0].item == name_part_at(old(self).toks(), p0),
                list.items@[0].span == old(self).toks()[p0].span,
                name_part_kind_v1(kind_at(old(self).toks(), p0)) && kind_at(old(self).toks(), p0 + 1) != Some(TokenKind::Dot) ==> self.at() == p0 + 1 && list.items@.len() == 1,
            decreases self.rem(),
        {
            if self.eat(TokenKind::Dot).is_none() {
                break;
            }
            let sep = match self.tokens.prev() {
                Some(t) => t.span,
                None => Span::new(0, 0),
            };
            list.seps.push(Loc::new(sep, TokenKind::Dot));
            let s = self.current_pos();
            match self.parse_name_part() {
                Some(item) => {
                    list.items.push(Loc::new(self.span_from(s), item));
                },
                None => break,
            }
        }
        Some(list)
    }

    /// Column aliases (identifiers or keywords) separated by commas, at least one.
    pub(crate) fn parse_column_alias_list1(&mut self) -> (res: Option<DelimitedList<Loc<SpannedStr>>>)
        requires
            old(self).wf(),
        ensures
            final(self).moved(*old(self)),
            res is Some ==> final(self).at() > old(self).at(),
            res is Some <==> (ident_kind(kind_at(old(self).toks(), old(self).at())) || kind_at(old(self).toks(), old(self).at()) matches Some(TokenKind::Keyword(_))),
            res matches Some(l) ==> l.items@.len() >= 1,
            (ident_kind(kind_at(old(self).toks(), old(self).at())) || kind_at(old(self).toks(), old(self).at()) matches Some(TokenKind::Keyword(_))) && closer_kind(kind_at(old(self).toks(), old(self).at() + 1)) ==> (res matches Some(l) && l.items@.len() == 1 && l.items@[0].item == old(self).toks()[old(self).at()].span) && final(self).at() == old(self).at() + 1,
    {
        let ghost p0 = self.at();
        let mut list = DelimitedList::new();
        let s = self.current_pos();
        let first = self.parse_column_alias()?;
        list.items.push(Loc::new(self.span_from(s), first));
        loop
            invariant
                self.moved(*old(self)),
                self.at() > p0,
                p0 == old(self).at(),
                list.items@.len() >= 1,
                (ident_kind(kind_at(old(self).toks(), p0)) || kind_at(old(self).toks(), p0) matches Some(TokenKind::Keyword(_))) && closer_kind(kind_at(old(self).toks(), p0 + 1)) ==> self.at() == p0 + 1 && list.items@.len() == 1 && list.items@[0].item == old(self).toks()[p0].span,
            decreases self.rem(),
        {
            if self.eat(TokenKind::Comma).is_none() {
                break;
            }
            let sep = match self.tokens.prev() {
                Some(t) => t.span,
                None => Span::new(0, 0),
            };
            list.seps.push(Loc::new(sep, TokenKind::Comma));
            let s = self.current_pos();
            match self.parse_column_alias() {
                Some(item) => {
                    list.items.push(Loc::new(self.span_from(s), item));
                },
                None => break,
            }
        }
        Some(list)
    }

    /// Expressions separated by commas, at least one.
    pub(crate) fn parse_expr_list1(&mut self) -> (res: Option<DelimitedList<Loc<Expr>>>)
        requires
            old(self).wf(),
        ensures
            final(self).moved(*old(self)),
            res is Some ==> final(self).at() > old(self).at(),
            res matches Some(l) ==> l.items@.len() >= 1,
            lone_literal_at(old(self).toks(), old(self).at()) && kind_at(old(self).toks(), old(self).at() + 1) != Some(TokenKind::Comma) ==> (res matches Some(l) && l.items@.len() == 1 && l.items@[0].item == literal_expr_at(old(self).toks(), old(self).at())) && final(self).at() == old(self).at() + 1,
            ({
                let ts = old(self).toks();
                let p = old(self).at();
                crate::parse::expr::operand_at(ts, p) && !(kind_at(ts, p + 1) matches Some(TokenKind::Operator(_)))
                    && kind_at(ts, p + 1) != Some(TokenKind::Comma) ==> (res matches Some(l) && l.items@.len() == 1
                    && crate::parse::expr::operand_is(l.items@[0].item, ts, p)) && final(self).at() == p + 1
            }),
        decreases old(self).rem(), 11nat,
    {
        let ghost p0 = self.at();
        let mut list = DelimitedList::new();
        let s = self.current_pos();
        let first = self.parse_expr()?;
        list.items.push(Loc::new(self.span_from(s), first));
        loop
            invariant
                self.moved(*old(self)),
                self.at() > p0,
                p0 == old(self).at(),
                list.items@.len() >= 1,
                lone_literal_at(old(self).toks(), p0) && kind_at(old(self).toks(), p0 + 1) != Some(TokenKind::Comma) ==> self.at() == p0 + 1 && list.items@.len() == 1 && list.items@[0].item == literal_expr_at(old(self).toks(), p0),
                crate::parse::expr::operand_at(old(self).toks(), p0) && !(kind_at(old(self).toks(), p0 + 1) matches Some(TokenKind::Operator(_)))
                    && kind_at(old(self).toks(), p0 + 1) != Some(TokenKind::Comma) ==> self.at() == p0 + 1 && list.items@.len() == 1
                    && crate::parse::expr::operand_is(list.items@[0].item, old(self).toks(), p0),
            decreases self.rem(),
        {
            if self.eat(TokenKind::Comma).is_none() {
                break;
            }
            let sep = match self.tokens.prev() {
                Some(t) => t.span,
                None => Span::new(0, 0),
            };
            list.seps.push(Loc::new(sep, TokenKind::Comma));
            let s = self.current_pos();
            match self.parse_expr() {
                Some(item) => {
                    list.items.push(Loc::new(self.span_from(s), item));
                },
                None => break,
            }
        }
        Some(list)
    }

    /// Select items separated by commas, at least one.
    #[verifier::rlimit(40)]
    pub(crate) fn parse_select_item_list1(&mut self) -> (res: Option<DelimitedList<Loc<ProjectionItem>>>)
        requires
            old(self).wf(),
        ensures
            final(self).moved(*old(self)),
            res is Some ==> final(self).at() > old(self).at(),
            res matches Some(l) ==> l.items@.len() >= 1,
            lone_literal_at(old(self).toks(), old(self).at()) && closer_kind(kind_at(old(self).toks(), old(self).at() + 1)) ==> (res matches Some(l) && l.items@.len() == 1 && l.items@[0].item.expr.item == literal_expr_at(old(self).toks(), old(self).at())) && final(self).at() == old(self).at() + 1,
            closer_kind(kind_at(old(self).toks(), old(self).at())) ==> res is None && final(self).at() == old(self).at(),
            simple_item_at(old(self).toks(), old(self).at()) && clause_end_kind(kind_at(old(self).toks(), old(self).at() + 1))
                ==> (res matches Some(l) && l.items@.len() == 1 && simple_item_is(l.items@[0].item.expr.item, old(self).toks(), old(self).at())
                && l.items@[0].item.alias is None) && final(self).at() == old(self).at() + 1,
            forall|m: nat| #[trigger] item_list(old(self).toks(), old(self).at(), m) ==> (res matches Some(l)
                && items_are(l, old(self).toks(), old(self).at(), m)) && final(self).at() == item_end(
                old(self).toks(),
                item_pos(old(self).toks(), old(self).at(), (m - 1) as nat),
            ),
        decreases old(self).rem(), 12nat,
    {
        let ghost p0 = self.at();
        let ghost ts0 = self.toks();
        let mut list = DelimitedList::new();
        let s = self.current_pos();
        let first = match self.parse_select_item() {
            Some(x) => x,
            None => {
                proof {
                    assert forall|m: nat| #[trigger] item_list(ts0, p0, m) implies false by {
                        assert(item_ok(ts0, item_pos(ts0, p0, 0)));
                    };
                }
                return None;
            },
        };
        list.items.push(Loc::new(self.span_from(s), first));
        proof {
            assert forall|m: nat| #[trigger] item_list(ts0, p0, m) implies items_are(list, ts0, p0, 1) && self.at()
                == item_end(ts0, item_pos(ts0, p0, 0)) by {
                assert(item_ok(ts0, item_pos(ts0, p0, 0)));
            };
        }
        loop
            invariant
                self.moved(*old(self)),
                self.at() > p0,
                p0 == old(self).at(),
                ts0 == old(self).toks(),
                forall|m: nat| #[trigger] item_list(ts0, p0, m) ==> list.items@.len() <= m && items_are(
                    list,
                    ts0,
                    p0,
                    list.items@.len() as nat,
                ) && self.at() == item_end(ts0, item_pos(ts0, p0, (list.items@.len() - 1) as nat)),
                list.items@.len() >= 1,
                lone_literal_at(old(self).toks(), p0) && closer_kind(kind_at(old(self).toks(), p0 + 1)) ==> self.at() == p0 + 1 && list.items@.len() == 1 && list.items@[0].item.expr.item == literal_expr_at(old(self).toks(), p0),
                simple_item_at(old(self).toks(), p0) && clause_end_kind(kind_at(old(self).toks(), p0 + 1)) ==> self.at() == p0 + 1 && list.items@.len() == 1
                    && simple_item_is(list.items@[0].item.expr.item, old(self).toks(), p0) && list.items@[0].item.alias is None,
            ensures
                self.moved(*old(self)),
                self.at() > p0,
                list.items@.len() >= 1,
                lone_literal_at(old(self).toks(), p0) && closer_kind(kind_at(old(self).toks(), p0 + 1)) ==> self.at() == p0 + 1 && list.items@.len() == 1 && list.items@[0].item.expr.item == literal_expr_at(old(self).toks(), p0),
                simple_item_at(old(self).toks(), p0) && clause_end_kind(kind_at(old(self).toks(), p0 + 1)) ==> self.at() == p0 + 1 && list.items@.len() == 1
                    && simple_item_is(list.items@[0].item.expr.item, old(self).toks(), p0) && list.items@[0].item.alias is None,
                forall|m: nat| #[trigger] item_list(ts0, p0, m) ==> list.items@.len() == m && items_are(
                    list,
                    ts0,
                    p0,
                    m,
                ) && self.at() == item_end(ts0, item_pos(ts0, p0, (m - 1) as nat)),
            decreases self.rem(),
        {
            let ghost n = list.items@.len();
            let ghost e = self.at();
            if self.eat(TokenKind::Comma).is_none() {
                proof {
                    assert forall|m: nat| #[trigger] item_list(ts0, p0, m) implies list.items@.len() == m by {
                        if n < m {
                            assert(kind_at(ts0, item_end(ts0, item_pos(ts0, p0, (n - 1) as nat))) == Some(TokenKind::Comma));
                        }
                    };
                }
                break;
            }
            proof {
                assert forall|m: nat| #[trigger] item_list(ts0, p0, m) implies n < m && item_ok(ts0, item_pos(ts0, p0, n))
                    && item_pos(ts0, p0, n) == e + 1 by {
                    if n == m {
                        assert(kind_at(ts0, item_end(ts0, item_pos(ts0, p0, (m - 1) as nat))) != Some(TokenKind::Comma));
                    }
                    assert(item_ok(ts0, item_pos(ts0, p0, n)));
                };
            }
            let sep = match self.tokens.prev() {
                Some(t) => t.span,
                None => Span::new(0, 0),
            };
            list.seps.push(Loc::new(sep, TokenKind::Comma));
            let s = self.current_pos();
            match self.parse_select_item() {
                Some(item) => {
                    list.items.push(Loc::new(self.span_from(s), item));
                },
                None => {
                    proof {
                        assert forall|m: nat| #[trigger] item_list(ts0, p0, m) implies false by {
                            assert(item_ok(ts0, item_pos(ts0, p0, n)));
                        };
                    }
                    break;
                },
            }
            proof {
                assert forall|m: nat| #[trigger] item_list(ts0, p0, m) implies list.items@.len() <= m && items_are(
                    list,
                    ts0,
                    p0,
                    list.items@.len() as nat,
                ) && self.at() == item_end(ts0, item_pos(ts0, p0, (list.items@.len() - 1) as nat)) by {
                    assert(item_ok(ts0, item_pos(ts0, p0, n)));
                };
            }
        }
        Some(list)
    }

    /// Table sources separated by commas, at least one.
    #[verifier::rlimit(40)]
    pub(crate) fn parse_table_ref_list1(&mut self) -> (res: Option<DelimitedList<Loc<TableRef>>>)
        requires
            old(self).wf(),
        ensures
            final(self).moved(*old(self)),
            res is Some ==> final(self).at() > old(self).at(),
            res matches Some(l) ==> l.items@.len() >= 1,
            ident_kind(kind_at(old(self).toks(), old(self).at())) && closer_kind(kind_at(old(self).toks(), old(self).at() + 1)) ==> (res matches Some(l) && l.items@.len() == 1) && final(self).at() == old(self).at() + 1,
            ident_kind(kind_at(old(self).toks(), old(self).at())) && from_end_kind(kind_at(old(self).toks(), old(self).at() + 1))
                ==> (res matches Some(l) && l.items@.len() == 1 && (l.items@[0].item matches TableRef::Factor(tf)
                && tf.item matches TableFactor::Named(n) && one_part_name_at(n.item.name, old(self).toks(), old(self).at())
                && n.item.alias is None)) && final(self).at() == old(self).at() + 1,
            ({
                let ts = old(self).toks();
                let p = old(self).at();
                table_chain_at(ts, p) && kind_at(ts, table_chain_end(ts, p)) != Some(TokenKind::Comma) ==> (res matches Some(l)
                    && l.items@.len() == 1 && join_tree_is(l.items@[0].item, ts, p, table_join_count(ts, p)))
                    && final(self).at() == table_chain_end(ts, p)
            }),
        decreases old(self).rem(), 6nat,
    {
        let ghost p0 = self.at();
        let mut list = DelimitedList::new();
        let s = self.current_pos();
        proof {
            let ts = self.toks();
            if table_chain_at(ts, p0) {
                assert(join_chain(ts, named_factor_end(ts, p0), table_join_count(ts, p0)));
            }
        }
        let first = self.parse_table_ref()?;
        list.items.push(Loc::new(self.span_from(s), first));
        loop
            invariant
                self.moved(*old(self)),
                self.at() > p0,
                p0 == old(self).at(),
                list.items@.len() >= 1,
                ident_kind(kind_at(old(self).toks(), p0)) && closer_kind(kind_at(old(self).toks(), p0 + 1)) ==> self.at() == p0 + 1 && list.items@.len() == 1,
                table_chain_at(old(self).toks(), p0) && kind_at(old(self).toks(), table_chain_end(old(self).toks(), p0)) != Some(TokenKind::Comma)
                    ==> list.items@.len() == 1 && join_tree_is(list.items@[0].item, old(self).toks(), p0, table_join_count(old(self).toks(), p0))
                    && self.at() == table_chain_end(old(self).toks(), p0),
                ident_kind(kind_at(old(self).toks(), p0)) && from_end_kind(kind_at(old(self).toks(), p0 + 1)) ==> self.at() == p0 + 1
                    && list.items@.len() == 1 && (list.items@[0].item matches TableRef::Factor(tf) && tf.item matches TableFactor::Named(n)
                    && one_part_name_at(n.item.name, old(self).toks(), p0) && n.item.alias is None),
            decreases self.rem(),
        {
            if self.eat(TokenKind::Comma).is_none() {
                break;
            }
            let sep = match self.tokens.prev() {
                Some(t) => t.span,
                None => Span::new(0, 0),
            };
            list.seps.push(Loc::new(sep, TokenKind::Comma));
            let s = self.current_pos();
            match self.parse_table_ref() {
                Some(item) => {
                    list.items.push(Loc::new(self.span_from(s), item));
                },
                None => break,
            }
        }
        Some(list)
    }

    /// Sort keys separated by commas, at least one.
    pub(crate) fn parse_order_by_item_list1(&mut self) -> (res: Option<DelimitedList<Loc<OrderByItem>>>)
        requires
            old(self).wf(),
        ensures
            final(self).moved(*old(self)),
            res is Some ==> final(self).at() > old(self).at(),
            res matches Some(l) ==> l.items@.len() >= 1,
            lone_literal_at(old(self).toks(), old(self).at()) && closer_kind(kind_at(old(self).toks(), old(self).at() + 1)) ==> (res matches Some(l) && l.items@.len() == 1) && final(self).at() == old(self).at() + 1,
            ({
                let ts = old(self).toks();
                let p = old(self).at();
                let d = p + 1 + (if direction_at(ts, p + 1) is Some { 1int } else { 0int });
                simple_item_at(ts, p) && kind_at(ts, d) != Some(TokenKind::Comma) ==> (res matches Some(l) && l.items@.len() == 1
                    && simple_item_is(l.items@[0].item.expr.item, ts, p) && l.items@[0].item.direction == direction_at(ts, p + 1)
                    && l.items@[0].item.nulls is None) && final(self).at() == d
            }),
        decreases old(self).rem(), 12nat,
    {
        let ghost p0 = self.at();
        let mut list = DelimitedList::new();
        let s = self.current_pos();
        let first = self.parse_order_by_item()?;
        list.items.push(Loc::new(self.span_from(s), first));
        loop
            invariant
                self.moved(*old(self)),
                self.at() > p0,
                p0 == old(self).at(),
                list.items@.len() >= 1,
                lone_literal_at(old(self).toks(), p0) && closer_kind(kind_at(old(self).toks(), p0 + 1)) ==> self.at() == p0 + 1 && list.items@.len() == 1,
                ({
                    let ts = old(self).toks();
                    let d = p0 + 1 + (if direction_at(ts, p0 + 1) is Some { 1int } else { 0int });
                    simple_item_at(ts, p0) && kind_at(ts, d) != Some(TokenKind::Comma) ==> self.at() == d && list.items@.len() == 1
                        && simple_item_is(list.items@[0].item.expr.item, ts, p0) && list.items@[0].item.direction == direction_at(ts, p0 + 1)
                        && list.items@[0].item.nulls is None
                }),
            decreases self.rem(),
        {
            if self.eat(TokenKind::Comma).is_none() {
                break;
            }
            let sep = match self.tokens.prev() {
                Some(t) => t.span,
                None => Span::new(0, 0),
            };
            list.seps.push(Loc::new(sep, TokenKind::Comma));
            let s = self.current_pos();
            match self.parse_order_by_item() {
                Some(item) => {
                    list.items.push(Loc::new(self.span_from(s), item));
                },
                None => break,
            }
        }
        Some(list)
    }

    /// Grouping items separated by commas, at least one.
    pub(crate) fn parse_group_by_item_list1(&mut self) -> (res: Option<DelimitedList<Loc<GroupByItem>>>)
        requires
            old(self).wf(),
        ensures
            final(self).moved(*old(self)),
            res is Some ==> final(self).at() > old(self).at(),
            res matches Some(l) ==> l.items@.len() >= 1,
            lone_literal_at(old(self).toks(), old(self).at()) && closer_kind(kind_at(old(self).toks(), old(self).at() + 1)) ==> (res matches Some(l) && l.items@.len() == 1 && (l.items@[0].item matches GroupByItem::Expr(e) && e.item == literal_expr_at(old(self).toks(), old(self).at()))) && final(self).at() == old(self).at() + 1,
            simple_item_at(old(self).toks(), old(self).at()) && kind_at(old(self).toks(), old(self).at() + 1) != Some(TokenKind::Comma)
                ==> (res matches Some(l) && l.items@.len() == 1 && (l.items@[0].item matches GroupByItem::Expr(e) && simple_item_is(
                e.item,
                old(self).toks(),
                old(self).at(),
            ))) && final(self).at() == old(self).at() + 1,
        decreases old(self).rem(), 12nat,
    {
        let ghost p0 = self.at();
        let mut list = DelimitedList::new();
        let s = self.current_pos();
        let first = self.parse_group_by_item()?;
        list.items.push(Loc::new(self.span_from(s), first));
        loop
            invariant
                self.moved(*old(self)),
                self.at() > p0,
                p0 == old(self).at(),
                list.items@.len() >= 1,
                lone_literal_at(old(self).toks(), p0) && closer_kind(kind_at(old(self).toks(), p0 + 1)) ==> self.at() == p0 + 1 && list.items@.len() == 1 && (list.items@[0].item matches GroupByItem::Expr(e) && e.item == literal_expr_at(old(self).toks(), p0)),
                simple_item_at(old(self).toks(), p0) && kind_at(old(self).toks(), p0 + 1) != Some(TokenKind::Comma) ==> self.at()
                    == p0 + 1 && list.items@.len() == 1 && (list.items@[0].item matches GroupByItem::Expr(e) && simple_item_is(
                    e.item,
                    old(self).toks(),
                    p0,
                )),
            decreases self.rem(),
        {
            if self.eat(TokenKind::Comma).is_none() {
                break;
            }
            let sep = match self.tokens.prev() {
                Some(t) => t.span,
                None => Span::new(0, 0),
            };
            list.seps.push(Loc::new(sep, TokenKind::Comma));
            let s = self.current_pos();
            match self.parse_group_by_item() {
                Some(item) => {
                    list.items.push(Loc::new(self.span_from(s), item));
                },
                None => break,
            }
        }
        Some(list)
    }

    /// A column alias: an identifier, or any keyword.
    pub(crate) fn parse_column_alias(&mut self) -> (res: Option<SpannedStr>)
        requires
            old(self).wf(),
        ensures
            final(self).moved(*old(self)),
            res is Some ==> final(self).at() == old(self).at() + 1,
            res is Some <==> (ident_kind(kind_at(old(self).toks(), old(self).at())) || kind_at(old(self).toks(), old(self).at()) matches Some(TokenKind::Keyword(_))),
            res is Some ==> res == Some(old(self).toks()[old(self).at()].span),
            res is None ==> final(self).at() == old(self).at(),
    {
        match self.tokens.current_kind() {
            Some(TokenKind::Identifier) | Some(TokenKind::IdentifierQuoted(_)) => self.parse_ident(),
            Some(TokenKind::Keyword(_)) => {
                let span = self.tokens.current()?.span;
                let _ = self.tokens.advance();
                Some(span)
            },
            _ => None,
        }
    }
}

} // verus!
