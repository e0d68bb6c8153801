//! A second recursive-descent parser over a token slice, with the fuller
//! grammar: `INSERT`, `UPDATE` and `DELETE` statements, `VALUES`, casts,
//! subscripts, `AT TIME ZONE`, negated predicates, `NULLS FIRST|LAST` and
//! grouping sets. Optional parts are tried and given up without consuming
//! anything where they do not parse.
use vstd::prelude::*;

use crate::ast::{
    Assignment, Cte, CteMaterialization, Delete, DelimitedList, Expr, FrameBound, FrameUnit,
    FromClause, FunctionTableFactor, GroupBy, GroupByItem, GroupingSet, Identifier, Insert,
    InsertSource, Join, JoinBase, JoinConstraint, JoinKind, Limit, LimitKind, NamePart,
    NamedTableFactor, NullsOrder, Offset, OrderBy, OrderByItem, Projection, ProjectionItem,
    QualifiedName, Query, QueryExpr, QueryPrimary, QuerySuffix, Select, SetOp, SetOpTerm,
    SetQuantifier, SortDirection, Statement, SubqueryTableFactor, TableFactor, TableRef, Update,
    Values, Where, Window, WindowDef, WindowFrame, WindowSpec, With,
};
use crate::dialect::DialectSpec;
use crate::lex::tape::kind_at;
use crate::lex::{Keyword, OpTag, Token, TokenKind};
use crate::parse::expr::{kw_at, lone_literal_at, op_at};
use crate::parse::is_select_query;
use crate::parse::parser::{
    cte_end, cte_is, cte_select_at, cte_select_query, single_cte_at, with_body_start, direction_at, limit_end, order_end, order_is, order_ok, tail_is, tail_select_at, tail_select_query, item_end, item_list, item_ok, item_count, item_pos, items_are, items_end, is_list_select, list_core_at, list_select_at, list_select_end,
    list_select_query, set_op_right, union_select_at, union_select_query, is_join_select, join_select_at, join_select_query, table_chain_at, table_chain_end, table_join_count, chain_pos, constraint_is, constraint_len, constraint_ok, join_chain, join_step_ok, join_tree_is, name_end,
    name_parts_at, named_factor_at, named_factor_end, named_factor_is, no_join_at, qname_at, alias_at, alias_len, alias_of, alias_settled, clause_end_kind, closer_kind, from_end_kind, ident_kind,
    is_simple_select, literal_expr_at, simple_item_at, simple_item_is, name_part_at, one_part_name_at, select_end, simple_select_at,
    simple_select_query, single_column_list_at, spec_is_reserved, spec_join_kind, spec_set_op,
};
pub use crate::parse::v2::expr::{lone_literal, name_before};
use crate::span::{Loc, Span};

mod expr;
mod util;

pub use util::{atom_at, atoms_end, atoms_ok, ident_list_end, lemma_atoms_end_after, spec_pos, spec_prev_end};

verus! {

/// A parser over a token slice, for a dialect.
pub struct WinnowParser<'a> {
    tokens: &'a [Token],
    pos: usize,
    spec: Option<&'a DialectSpec>,
}

/// The position past the semicolons that start at `p`.
pub open spec fn skip_semicolons(ts: Seq<Token>, p: int) -> int
    decreases ts.len() - p,
{
    if 0 <= p < ts.len() && ts[p].kind == TokenKind::Semicolon {
        skip_semicolons(ts, p + 1)
    } else {
        p
    }
}

/// Whether a statement starting at `p` is too short to tell what it is: no
/// token, the end of input, or one identifier and then nothing or the end of
/// input.
pub open spec fn is_partial_from(ts: Seq<Token>, p: int) -> bool {
    ||| kind_at(ts, p) is None
    ||| kind_at(ts, p) == Some(TokenKind::Eof)
    ||| kind_at(ts, p) == Some(TokenKind::Identifier) && (kind_at(ts, p + 1) is None || kind_at(
        ts,
        p + 1,
    ) == Some(TokenKind::Eof))
}

/// The update is the one read from the simple update at `p`: its table,
/// its one assignment, and nothing else.
pub open spec fn is_simple_update(u: Update, ts: Seq<Token>, p: int) -> bool {
    &&& one_part_name_at(u.table, ts, p + 1)
    &&& u.alias is None
    &&& u.assignments.items@.len() == 1
    &&& u.assignments.items@[0].item.column.item == ts[p + 3].span
    &&& u.assignments.items@[0].item.value.item == literal_expr_at(ts, p + 5)
    &&& u.from is None
    &&& u.where_clause is None
    &&& u.returning is None
}

/// `DELETE FROM table [WHERE literal]` at `p`, then a list-ending token: the
/// table an identifier.
pub open spec fn simple_delete_at(ts: Seq<Token>, p: int) -> bool {
    &&& kw_at(ts, p, Keyword::Delete)
    &&& kw_at(ts, p + 1, Keyword::From)
    &&& ident_kind(kind_at(ts, p + 2))
    &&& kw_at(ts, p + 3, Keyword::Where) ==> lone_literal(ts, p + 4) && closer_kind(kind_at(ts, p + 5))
    &&& !kw_at(ts, p + 3, Keyword::Where) ==> closer_kind(kind_at(ts, p + 3))
}

/// The delete is the one read from the simple delete at `p`: its table, its
/// condition, and nothing else.
pub open spec fn is_simple_delete(d: Delete, ts: Seq<Token>, p: int) -> bool {
    &&& one_part_name_at(d.table, ts, p + 2)
    &&& d.alias is None
    &&& d.using is None
    &&& kw_at(ts, p + 3, Keyword::Where) ==> (d.where_clause matches Some(w) && w.item.expr.item == literal_expr_at(
        ts,
        p + 4,
    ))
    &&& !kw_at(ts, p + 3, Keyword::Where) ==> d.where_clause is None
    &&& d.returning is None
}

/// Whether a token of this kind can be part of a name: an identifier,
/// quoted or not, `*`, or a keyword that is not reserved.
pub open spec fn name_part_kind(k: Option<TokenKind>) -> bool {
    match k {
        Some(TokenKind::Identifier) | Some(TokenKind::IdentifierQuoted(_)) => true,
        Some(TokenKind::Operator(op)) => op.semantic_tag == OpTag::Mul,
        Some(TokenKind::Keyword(k)) => !spec_is_reserved(k),
        _ => false,
    }
}

/// Whether a token of this kind is an identifier, quoted or not, or a
/// keyword.
pub open spec fn word_kind(k: Option<TokenKind>) -> bool {
    k matches Some(TokenKind::Identifier) || k matches Some(TokenKind::IdentifierQuoted(_))
        || k matches Some(TokenKind::Keyword(_))
}

/// `WITH name AS ()` at `p`, with no comma after it: one common table
/// expression with an empty body.
pub open spec fn single_empty_cte(ts: Seq<Token>, p: int) -> bool {
    &&& kw_at(ts, p, Keyword::With)
    &&& ident_kind(kind_at(ts, p + 1))
    &&& kw_at(ts, p + 2, Keyword::As)
    &&& kind_at(ts, p + 3) == Some(TokenKind::LeftParen)
    &&& kind_at(ts, p + 4) == Some(TokenKind::RightParen)
    &&& kind_at(ts, p + 5) != Some(TokenKind::Comma)
}

/// `INSERT INTO table (column) VALUES (literal)` at `p`, then a list-ending
/// token.
pub open spec fn simple_insert_at(ts: Seq<Token>, p: int) -> bool {
    &&& kw_at(ts, p, Keyword::Insert)
    &&& kw_at(ts, p + 1, Keyword::Into)
    &&& ident_kind(kind_at(ts, p + 2))
    &&& kind_at(ts, p + 3) == Some(TokenKind::LeftParen)
    &&& ident_kind(kind_at(ts, p + 4))
    &&& kind_at(ts, p + 5) == Some(TokenKind::RightParen)
    &&& kw_at(ts, p + 6, Keyword::Values)
    &&& kind_at(ts, p + 7) == Some(TokenKind::LeftParen)
    &&& lone_literal(ts, p + 8)
    &&& kind_at(ts, p + 9) == Some(TokenKind::RightParen)
    &&& closer_kind(kind_at(ts, p + 10))
}

/// The insert is the one read from the simple insert at `p`.
pub open spec fn is_simple_insert(i: Insert, ts: Seq<Token>, p: int) -> bool {
    &&& one_part_name_at(i.table, ts, p + 2)
    &&& i.columns matches Some(c) && c.items@.len() == 1 && c.items@[0].item == ts[p + 4].span
    &&& i.source matches InsertSource::Values(v) && v.item.rows@.len() == 1 && v.item.rows@[0].item.items@.len()
        == 1 && v.item.rows@[0].item.items@[0].item == literal_expr_at(ts, p + 8)
    &&& i.returning is None
}

/// `UPDATE table SET column = literal` at `p`, then a list-ending token.
pub open spec fn simple_update_at(ts: Seq<Token>, p: int) -> bool {
    &&& kw_at(ts, p, Keyword::Update)
    &&& ident_kind(kind_at(ts, p + 1))
    &&& kw_at(ts, p + 2, Keyword::SetKw)
    &&& ident_kind(kind_at(ts, p + 3))
    &&& op_at(ts, p + 4, OpTag::Eq)
    &&& lone_literal(ts, p + 5)
    &&& closer_kind(kind_at(ts, p + 6))
}

/// Where the column list opened at `n` ends: past its identifiers and past
/// the `)` after them, where there is one.
pub open spec fn column_list_end(ts: Seq<Token>, n: int) -> int {
    let e = if ident_kind(kind_at(ts, n + 1)) {
        ident_list_end(ts, n + 2)
    } else {
        n + 1
    };
    if kind_at(ts, e) == Some(TokenKind::RightParen) {
        e + 1
    } else {
        e
    }
}

/// Where the source of the `INSERT INTO name` at `p` starts: after the
/// table's name and after its column list, where one is given.
pub open spec fn insert_source_at(ts: Seq<Token>, p: int) -> int {
    let n = name_end(ts, p + 3);
    if kind_at(ts, n) == Some(TokenKind::LeftParen) {
        column_list_end(ts, n)
    } else {
        n
    }
}

/// Where the row opened at `q` should close: right after its `(` for an
/// empty row, else after its atoms.
pub open spec fn row_close(ts: Seq<Token>, q: int) -> int {
    if kind_at(ts, q + 1) == Some(TokenKind::RightParen) {
        q + 1
    } else {
        atoms_end(ts, q + 1)
    }
}

/// Rows from `q` separated by commas, each `(` atoms `)` or `()`.
pub open spec fn rows_ok(ts: Seq<Token>, q: int) -> bool
    decreases ts.len() - q,
{
    if 0 <= q < ts.len() && kind_at(ts, q) == Some(TokenKind::LeftParen) && (kind_at(ts, q + 1) == Some(
        TokenKind::RightParen,
    ) || atoms_ok(ts, q + 1)) && kind_at(ts, row_close(ts, q)) == Some(TokenKind::RightParen) {
        if kind_at(ts, row_close(ts, q) + 1) == Some(TokenKind::Comma) && row_close(ts, q) > q {
            rows_ok(ts, row_close(ts, q) + 2)
        } else {
            true
        }
    } else {
        false
    }
}

/// `INSERT INTO name [(columns)]` at `p` with a source that reads: `DEFAULT
/// VALUES`, a query, or `VALUES` and rows.
pub open spec fn insert_ok_at(ts: Seq<Token>, p: int) -> bool {
    &&& kw_at(ts, p, Keyword::Insert)
    &&& kw_at(ts, p + 1, Keyword::Into)
    &&& name_part_kind(kind_at(ts, p + 2))
    &&& kw_at(ts, insert_source_at(ts, p), Keyword::Values) ==> rows_ok(ts, insert_source_at(ts, p) + 1)
}

/// Where the `SET` of the `UPDATE name` at `p` stands: after the table's
/// name and its alias, where one is given.
pub open spec fn update_set_at(ts: Seq<Token>, p: int) -> int {
    let n = name_end(ts, p + 2);
    if kw_at(ts, n, Keyword::As) && ident_kind(kind_at(ts, n + 1)) {
        n + 2
    } else if ident_kind(kind_at(ts, n)) {
        n + 1
    } else {
        n
    }
}

/// `UPDATE name [alias] SET column = atom` at `p`: a statement that reads
/// whatever follows its first assignment.
pub open spec fn update_ok_at(ts: Seq<Token>, p: int) -> bool {
    let s = update_set_at(ts, p);
    &&& kw_at(ts, p, Keyword::Update)
    &&& name_part_kind(kind_at(ts, p + 1))
    &&& kw_at(ts, s, Keyword::SetKw)
    &&& ident_kind(kind_at(ts, s + 1))
    &&& op_at(ts, s + 2, OpTag::Eq)
    &&& atom_at(ts, s + 3)
}

/// `DELETE FROM name` at `p`: a statement that reads whatever follows the
/// name.
pub open spec fn delete_ok_at(ts: Seq<Token>, p: int) -> bool {
    &&& kw_at(ts, p, Keyword::Delete)
    &&& kw_at(ts, p + 1, Keyword::From)
    &&& name_part_kind(kind_at(ts, p + 2))
}

/// A one-part name at `q` that is not qualified further.
pub open spec fn lone_name_at(ts: Seq<Token>, q: int) -> bool {
    name_part_kind(kind_at(ts, q)) && kind_at(ts, q + 1) != Some(TokenKind::Dot)
}

/// A table function with `nargs` arguments that end before `a`, read with
/// its alias and column list: its argument count, alias and columns, and
/// where reading stops (`fin`), where the alias can be read.
pub open spec fn table_function_at(
    res: Option<TableRef>,
    ts: Seq<Token>,
    lat: bool,
    a: int,
    nargs: nat,
    fin: int,
) -> bool {
    let c = a + alias_len(ts, a);
    res matches Some(TableRef::Factor(f)) && f.item matches TableFactor::Function(g) && {
        &&& g.item.lateral == lat
        &&& g.item.args.items@.len() == nargs
        &&& alias_of(g.item.alias) == alias_at(ts, a)
        &&& alias_settled(ts, a) ==> {
            &&& kind_at(ts, c) != Some(TokenKind::LeftParen) ==> g.item.columns is None && fin == c
            &&& single_column_list_at(ts, c) ==> (g.item.columns matches Some(l) && l.items@.len() == 1
                && l.items@[0].item == ts[c + 1].span) && fin == c + 3
        }
    }
}

/// The statement keyword at `p`, where it starts a data-changing statement.
pub open spec fn dml_keyword_at(ts: Seq<Token>, p: int) -> Option<Keyword> {
    match kind_at(ts, p) {
        Some(TokenKind::Keyword(Keyword::Insert)) => Some(Keyword::Insert),
        Some(TokenKind::Keyword(Keyword::Update)) => Some(Keyword::Update),
        Some(TokenKind::Keyword(Keyword::Delete)) => Some(Keyword::Delete),
        _ => None,
    }
}

impl<'a> WinnowParser<'a> {
    pub closed spec fn wf(&self) -> bool {
        self.pos <= self.tokens@.len()
    }

    pub closed spec fn rem(&self) -> nat {
        (self.tokens@.len() - self.pos) as nat
    }

    /// The position.
    pub closed spec fn at(&self) -> int {
        self.pos as int
    }

    /// The tokens.
    pub closed spec fn toks(&self) -> Seq<Token> {
        self.tokens@
    }

    /// The kind of the token at the position.
    pub open spec fn kind_now(&self) -> Option<TokenKind> {
        kind_at(self.toks(), self.at())
    }

    /// `self` is `before` with the position moved forward, or left, over the
    /// same tokens.
    pub open spec fn moved(&self, before: WinnowParser<'a>) -> bool {
        &&& self.wf()
        &&& self.toks() == before.toks()
        &&& before.at() <= self.at()
    }

    /// A parser at the first token.
    pub fn new(tokens: &'a [Token], spec: &'a DialectSpec) -> (res: Self)
        ensures
            res.wf(),
            res.toks() == tokens@,
            res.at() == 0,
    {
        WinnowParser { tokens, pos: 0, spec: Some(spec) }
    }

    /// A parser at the token `pos`, with no dialect.
    pub(crate) fn starting_at(tokens: &'a [Token], pos: usize) -> (res: Self)
        requires
            pos <= tokens@.len(),
        ensures
            res.wf(),
            res.toks() == tokens@,
            res.at() == pos,
    {
        WinnowParser { tokens, pos, spec: None }
    }

    /// The index of the token at the position.
    pub(crate) fn index(&self) -> (res: usize)
        requires
            self.wf(),
        ensures
            res == self.at(),
            res <= self.toks().len(),
    {
        self.pos
    }

    /// Parse one statement, past leading semicolons. Input too short to tell
    /// what it starts gives a partial statement; `INSERT`, `UPDATE` and
    /// `DELETE` give those statements, or nothing where they cannot be read
    /// (`DELETE` is read exactly when `FROM` and a name follow it, `INSERT`
    /// only when `INTO` and a name do); anything else gives a query holding
    /// what could be read (a `SELECT` statement, a query whose body starts
    /// with that select).
    #[verifier::rlimit(40)]
    pub fn parse_statement(&mut self) -> (res: Option<Loc<Statement>>)
        requires
            old(self).wf(),
        ensures
            final(self).moved(*old(self)),
            ({
                let ts = old(self).toks();
                let p = skip_semicolons(ts, old(self).at());
                &&& simple_select_at(ts, p) ==> (res matches Some(s) && s.item matches Statement::Query(q)
                    && simple_select_query(q.item, ts, p))
                &&& join_select_at(ts, p) ==> (res matches Some(s) && s.item matches Statement::Query(q)
                    && join_select_query(q.item, ts, p))
                &&& list_select_at(ts, p) ==> (res matches Some(s) && s.item matches Statement::Query(q)
                    && list_select_query(q.item, ts, p))
                &&& union_select_at(ts, p) ==> (res matches Some(s) && s.item matches Statement::Query(q)
                    && union_select_query(q.item, ts, p))
                &&& tail_select_at(ts, p) ==> (res matches Some(s) && s.item matches Statement::Query(q)
                    && tail_select_query(q.item, ts, p))
                &&& cte_select_at(ts, p) ==> (res matches Some(s) && s.item matches Statement::Query(q)
                    && cte_select_query(q.item, ts, p))
                &&& simple_insert_at(ts, p) ==> (res matches Some(s) && s.item matches Statement::Insert(i)
                    && is_simple_insert(i.item, ts, p))
                &&& simple_update_at(ts, p) ==> (res matches Some(s) && s.item matches Statement::Update(u)
                    && u.item.assignments.items@.len() == 1 && is_simple_update(u.item, ts, p))
                &&& simple_delete_at(ts, p) ==> (res matches Some(s) && s.item matches Statement::Delete(d)
                    && is_simple_delete(d.item, ts, p))
            }),
            ({
                let ts = old(self).toks();
                let p = skip_semicolons(ts, old(self).at());
                if is_partial_from(ts, p) {
                    res matches Some(s) && s.item is Partial
                } else {
                    match dml_keyword_at(ts, p) {
                        Some(Keyword::Insert) => (res is None || res->0.item is Insert) && (res is Some
                            ==> kind_at(ts, p + 1) == Some(TokenKind::Keyword(Keyword::Into))
                            && name_part_kind(kind_at(ts, p + 2))) && (insert_ok_at(ts, p) ==> res is Some),
                        Some(Keyword::Update) => (res is None || res->0.item is Update) && (update_ok_at(ts, p)
                            ==> res is Some),
                        Some(_) => (res is None || res->0.item is Delete) && (res is Some <==> kind_at(ts, p + 1)
                            == Some(TokenKind::Keyword(Keyword::From)) && name_part_kind(kind_at(ts, p + 2))),
                        None => res matches Some(s) && s.item is Query,
                    }
                }
            }),
            ({
                let ts = old(self).toks();
                let p = skip_semicolons(ts, old(self).at());
                res matches Some(s) ==> {
                    &&& s.span.start == spec_pos(ts, p)
                    &&& s.item is Partial ==> s.span.end == s.span.start && final(self).at() == p
                    &&& !(s.item is Partial) ==> s.span.end == spec_prev_end(
                        ts,
                        final(self).at(),
                        s.span.start,
                    )
                }
            }),
            ({
                let ts = old(self).toks();
                let p = skip_semicolons(ts, old(self).at());
                kind_at(ts, p) == Some(TokenKind::Keyword(Keyword::Select)) ==> (res matches Some(s)
                    && is_select_query(s.item))
            }),
    {
        let ghost ts = self.toks();
        loop
            invariant
                self.moved(*old(self)),
                ts == old(self).toks(),
                skip_semicolons(ts, old(self).at()) == skip_semicolons(ts, self.at()),
            ensures
                self.moved(*old(self)),
                ts == old(self).toks(),
                skip_semicolons(ts, old(self).at()) == self.at(),
            decreases self.rem(),
        {
            if self.eat(TokenKind::Semicolon).is_none() {
                break;
            }
        }
        let start = self.pos();
        let kind = self.kind();
        if kind.is_none() || kind == Some(TokenKind::Eof) {
            return Some(Loc::new(Span::new(start, start), Statement::Partial(Loc::new(self.span(), ()))));
        }
        if kind == Some(TokenKind::Identifier) {
            let next = self.peek_kind();
            if next.is_none() || next == Some(TokenKind::Eof) {
                return Some(
                    Loc::new(Span::new(start, start), Statement::Partial(Loc::new(self.span(), ()))),
                );
            }
        }
        if kind == Some(TokenKind::Keyword(Keyword::Insert)) {
            let s = self.pos();
            let ins = self.parse_insert()?;
            let node = Loc::new(self.span_from(s), ins);
            return Some(Loc::new(Span::new(start, node.span.end), Statement::Insert(node)));
        }
        if kind == Some(TokenKind::Keyword(Keyword::Update)) {
            let s = self.pos();
            let upd = self.parse_update()?;
            let node = Loc::new(self.span_from(s), upd);
            return Some(Loc::new(Span::new(start, node.span.end), Statement::Update(node)));
        }
        if kind == Some(TokenKind::Keyword(Keyword::Delete)) {
            let s = self.pos();
            let del = self.parse_delete()?;
            let node = Loc::new(self.span_from(s), del);
            return Some(Loc::new(Span::new(start, node.span.end), Statement::Delete(node)));
        }
        let s = self.pos();
        let q = self.parse_query();
        let query = Loc::new(self.span_from(s), q);
        Some(Loc::new(Span::new(start, query.span.end), Statement::Query(query)))
    }

    /// A query: each of its parts where it parses.
    #[verifier::rlimit(40)]
    pub fn parse_query(&mut self) -> (res: Query)
        requires
            old(self).wf(),
        ensures
            final(self).moved(*old(self)),
            simple_select_at(old(self).toks(), old(self).at()) ==> simple_select_query(res, old(self).toks(), old(self).at())
                && final(self).at() == select_end(old(self).toks(), old(self).at()),
            join_select_at(old(self).toks(), old(self).at()) ==> join_select_query(res, old(self).toks(), old(self).at())
                && final(self).at() == table_chain_end(old(self).toks(), old(self).at() + 3),
            list_select_at(old(self).toks(), old(self).at()) ==> list_select_query(res, old(self).toks(), old(self).at())
                && final(self).at() == list_select_end(old(self).toks(), old(self).at()),
            union_select_at(old(self).toks(), old(self).at()) ==> union_select_query(res, old(self).toks(), old(self).at()),
            tail_select_at(old(self).toks(), old(self).at()) ==> tail_select_query(res, old(self).toks(), old(self).at()),
            cte_select_at(old(self).toks(), old(self).at()) ==> cte_select_query(res, old(self).toks(), old(self).at()),
            closer_kind(old(self).kind_now()) ==> res.with is None && res.body is None && res.tail is None
                && final(self).at() == old(self).at(),
            old(self).kind_now() == Some(TokenKind::Keyword(Keyword::Select)) ==> res.with is None
                && (res.body matches Some(b) && b.item.left.item is Select),
        decreases old(self).rem(), 20nat,
    {
        let cp = self.pos;
        let s = self.pos();
        let with = match self.parse_with() {
            Some(w) => Some(Loc::new(self.span_from(s), w)),
            None => {
                self.pos = cp;
                None
            },
        };
        let cp = self.pos;
        let s = self.pos();
        let body = match self.parse_query_expr() {
            Some(b) => Some(Loc::new(self.span_from(s), b)),
            None => {
                self.pos = cp;
                None
            },
        };
        let cp = self.pos;
        let s = self.pos();
        let tail = match self.parse_query_suffix() {
            Some(t) => Some(Loc::new(self.span_from(s), t)),
            None => {
                self.pos = cp;
                None
            },
        };
        Query { with, body, tail }
    }

    #[verifier::rlimit(40)]
    fn parse_with(&mut self) -> (res: Option<With>)
        requires
            old(self).wf(),
        ensures
            final(self).moved(*old(self)),
            ({
                let ts = old(self).toks();
                let p = old(self).at();
                &&& res matches Some(w) ==> w.recursive == kw_at(ts, p + 1, Keyword::Recursive) && w.ctes@.len() >= 1
                &&& kind_at(ts, p) != Some(TokenKind::Keyword(Keyword::With)) ==> final(self).at() == p
                &&& single_empty_cte(ts, p) ==> (res matches Some(w) && w.ctes@.len() == 1) && final(self).at() == p + 5
                &&& single_cte_at(ts, p) ==> (res matches Some(w) && cte_is(w, ts, p)) && final(self).at() == cte_end(ts, p)
            }),
            res is Some ==> final(self).at() > old(self).at(),
            old(self).kind_now() != Some(TokenKind::Keyword(Keyword::With)) ==> res is None,
        decreases old(self).rem(), 19nat,
    {
        let ghost p0 = self.at();
        self.kw(Keyword::With)?;
        let recursive = self.kw(Keyword::Recursive).is_some();
        let mut ctes: Vec<Loc<Cte>> = Vec::new();
        loop
            invariant_except_break
                single_empty_cte(old(self).toks(), p0) ==> ctes@.len() == 0 && self.at() == p0 + 1,
                single_cte_at(old(self).toks(), p0) ==> ctes@.len() == 0 && self.at() == with_body_start(old(self).toks(), p0),
            invariant
                kw_at(old(self).toks(), p0, Keyword::With),
                self.moved(*old(self)),
                self.at() > p0,
                p0 == old(self).at(),
                recursive == kw_at(old(self).toks(), p0 + 1, Keyword::Recursive),
            ensures
                self.moved(*old(self)),
                self.at() > p0,
                recursive == kw_at(old(self).toks(), p0 + 1, Keyword::Recursive),
                ctes@.len() >= 1,
                single_empty_cte(old(self).toks(), p0) ==> ctes@.len() == 1 && self.at() == p0 + 5,
                single_cte_at(old(self).toks(), p0) ==> cte_is((With { recursive, ctes }), old(self).toks(), p0)
                    && self.at() == cte_end(old(self).toks(), p0),
            decreases self.rem(),
        {
            let start = self.pos();
            let name = self.ident()?;
            let columns = self.paren_idents();
            let materialized = if self.kw(Keyword::Materialized).is_some() {
                Some(CteMaterialization::Materialized)
            } else if self.op(OpTag::Not).is_some() && self.kw(Keyword::Materialized).is_some() {
                Some(CteMaterialization::NotMaterialized)
            } else {
                None
            };
            self.kw(Keyword::As)?;
            self.eat(TokenKind::LeftParen)?;
            let s = self.pos();
            let q = self.parse_query();
            let query = Box::new(Loc::new(self.span_from(s), q));
            let _ = self.eat(TokenKind::RightParen);
            ctes.push(Loc::new(self.span_from(start), Cte { name, columns, materialized, query }));
            if self.eat(TokenKind::Comma).is_none() {
                break;
            }
        }
        Some(With { recursive, ctes })
    }

    #[verifier::rlimit(40)]
    fn parse_query_expr(&mut self) -> (res: Option<QueryExpr>)
        requires
            old(self).wf(),
        ensures
            final(self).moved(*old(self)),
            simple_select_at(old(self).toks(), old(self).at()) ==> (res matches Some(e) && e.set_ops@.len() == 0 && (
            e.left.item matches QueryPrimary::Select(sel) && is_simple_select(sel.item, old(self).toks(), old(self).at())))
                && final(self).at() == select_end(old(self).toks(), old(self).at()),
            join_select_at(old(self).toks(), old(self).at()) ==> (res matches Some(e) && e.set_ops@.len() == 0 && (
            e.left.item matches QueryPrimary::Select(sel) && is_join_select(sel.item, old(self).toks(), old(self).at())))
                && final(self).at() == table_chain_end(old(self).toks(), old(self).at() + 3),
            list_select_at(old(self).toks(), old(self).at()) ==> (res matches Some(e) && e.set_ops@.len() == 0 && (
            e.left.item matches QueryPrimary::Select(sel) && is_list_select(sel.item, old(self).toks(), old(self).at())))
                && final(self).at() == list_select_end(old(self).toks(), old(self).at()),
            ({
                let ts = old(self).toks();
                let p = old(self).at();
                let e = list_select_end(ts, p);
                union_select_at(ts, p) ==> (res matches Some(x) && x.set_ops@.len() == 1 && (x.left.item matches QueryPrimary::Select(
                    sel,
                ) && is_list_select(sel.item, ts, p)) && x.set_ops@[0].item.op == spec_set_op(ts, e)->0 && (
                x.set_ops@[0].item.right.item matches QueryPrimary::Select(r) && is_list_select(
                    r.item,
                    ts,
                    set_op_right(ts, e),
                ))) && final(self).at() == list_select_end(ts, set_op_right(ts, e))
            }),
            tail_select_at(old(self).toks(), old(self).at()) ==> (res matches Some(e) && e.set_ops@.len() == 0 && (
            e.left.item matches QueryPrimary::Select(sel) && is_list_select(sel.item, old(self).toks(), old(self).at())))
                && final(self).at() == list_select_end(old(self).toks(), old(self).at()),
            !(old(self).kind_now() == Some(TokenKind::Keyword(Keyword::Select)) || old(self).kind_now() == Some(
                TokenKind::Keyword(Keyword::Values),
            )) ==> res is None,
            res is Some ==> final(self).at() > old(self).at(),
            old(self).kind_now() == Some(TokenKind::Keyword(Keyword::Select)) ==> (res matches Some(e)
                && e.left.item is Select),
        decreases old(self).rem(), 19nat,
    {
        let ghost p0 = self.at();
        let s = self.pos();
        let p = self.parse_query_primary()?;
        let left = Loc::new(self.span_from(s), p);
        let mut set_ops: Vec<Loc<SetOpTerm>> = Vec::new();
        loop
            invariant
                self.moved(*old(self)),
                self.at() > p0,
                p0 == old(self).at(),
                simple_select_at(old(self).toks(), p0) ==> self.at() == select_end(old(self).toks(), p0) && set_ops@.len()
                    == 0 && (left.item matches QueryPrimary::Select(sel) && is_simple_select(sel.item, old(self).toks(), p0)),
                join_select_at(old(self).toks(), p0) ==> self.at() == table_chain_end(old(self).toks(), p0 + 3) && set_ops@.len()
                    == 0 && (left.item matches QueryPrimary::Select(sel) && is_join_select(sel.item, old(self).toks(), p0)),
                list_select_at(old(self).toks(), p0) ==> self.at() == list_select_end(old(self).toks(), p0) && set_ops@.len()
                    == 0 && (left.item matches QueryPrimary::Select(sel) && is_list_select(sel.item, old(self).toks(), p0)),
                tail_select_at(old(self).toks(), p0) ==> self.at() == list_select_end(old(self).toks(), p0) && set_ops@.len()
                    == 0 && (left.item matches QueryPrimary::Select(sel) && is_list_select(sel.item, old(self).toks(), p0)),
                union_select_at(old(self).toks(), p0) ==> (left.item matches QueryPrimary::Select(sel) && is_list_select(
                    sel.item,
                    old(self).toks(),
                    p0,
                )) && ((set_ops@.len() == 0 && self.at() == list_select_end(old(self).toks(), p0)) || (set_ops@.len() == 1
                    && set_ops@[0].item.op == spec_set_op(old(self).toks(), list_select_end(old(self).toks(), p0))->0 && (
                set_ops@[0].item.right.item matches QueryPrimary::Select(r) && is_list_select(
                    r.item,
                    old(self).toks(),
                    set_op_right(old(self).toks(), list_select_end(old(self).toks(), p0)),
                )) && self.at() == list_select_end(
                    old(self).toks(),
                    set_op_right(old(self).toks(), list_select_end(old(self).toks(), p0)),
                ))),
            ensures
                self.moved(*old(self)),
                self.at() > p0,
                simple_select_at(old(self).toks(), p0) ==> self.at() == select_end(old(self).toks(), p0) && set_ops@.len()
                    == 0 && (left.item matches QueryPrimary::Select(sel) && is_simple_select(sel.item, old(self).toks(), p0)),
                join_select_at(old(self).toks(), p0) ==> self.at() == table_chain_end(old(self).toks(), p0 + 3) && set_ops@.len()
                    == 0 && (left.item matches QueryPrimary::Select(sel) && is_join_select(sel.item, old(self).toks(), p0)),
                list_select_at(old(self).toks(), p0) ==> self.at() == list_select_end(old(self).toks(), p0) && set_ops@.len()
                    == 0 && (left.item matches QueryPrimary::Select(sel) && is_list_select(sel.item, old(self).toks(), p0)),
                tail_select_at(old(self).toks(), p0) ==> self.at() == list_select_end(old(self).toks(), p0) && set_ops@.len()
                    == 0 && (left.item matches QueryPrimary::Select(sel) && is_list_select(sel.item, old(self).toks(), p0)),
                union_select_at(old(self).toks(), p0) ==> (left.item matches QueryPrimary::Select(sel) && is_list_select(
                    sel.item,
                    old(self).toks(),
                    p0,
                )) && set_ops@.len() == 1 && set_ops@[0].item.op == spec_set_op(
                    old(self).toks(),
                    list_select_end(old(self).toks(), p0),
                )->0 && (set_ops@[0].item.right.item matches QueryPrimary::Select(r) && is_list_select(
                    r.item,
                    old(self).toks(),
                    set_op_right(old(self).toks(), list_select_end(old(self).toks(), p0)),
                )) && self.at() == list_select_end(
                    old(self).toks(),
                    set_op_right(old(self).toks(), list_select_end(old(self).toks(), p0)),
                ),
            decreases self.rem(),
        {
            let cp = self.pos;
            let s = self.pos();
            match self.parse_set_op_term() {
                Some(t) => set_ops.push(Loc::new(self.span_from(s), t)),
                None => {
                    self.pos = cp;
                    break;
                },
            }
        }
        Some(QueryExpr { left, set_ops })
    }

    #[verifier::rlimit(40)]
    fn parse_set_op_term(&mut self) -> (res: Option<SetOpTerm>)
        requires
            old(self).wf(),
        ensures
            final(self).moved(*old(self)),
            ({
                let ts = old(self).toks();
                let p = old(self).at();
                &&& res is Some ==> spec_set_op(ts, p) is Some
                &&& res matches Some(t) ==> t.op == spec_set_op(ts, p)->0
                &&& spec_set_op(ts, p) is Some && kw_at(ts, p + 1, Keyword::Select) ==> (res matches Some(t)
                    && t.right.item is Select)
                &&& spec_set_op(ts, p) is Some && list_core_at(ts, set_op_right(ts, p)) ==> (res matches Some(t) && (
                t.right.item matches QueryPrimary::Select(sel) && is_list_select(sel.item, ts, set_op_right(ts, p))))
                    && final(self).at() == list_select_end(ts, set_op_right(ts, p))
            }),
            res is Some ==> final(self).at() > old(self).at(),
        decreases old(self).rem(), 5nat,
    {
        let op = self.parse_set_op()?;
        let s = self.pos();
        let p = self.parse_query_primary()?;
        Some(SetOpTerm { op, right: Loc::new(self.span_from(s), p) })
    }

    /// `UNION`, `INTERSECT`, `EXCEPT` or `MINUS`, then an optional `ALL`.
    fn parse_set_op(&mut self) -> (res: Option<SetOp>)
        requires
            old(self).wf(),
        ensures
            final(self).moved(*old(self)),
            res is Some && !kw_at(old(self).toks(), old(self).at() + 1, Keyword::All) ==> final(self).at()
                == old(self).at() + 1,
            res == spec_set_op(old(self).toks(), old(self).at()),
            res is Some ==> final(self).at() > old(self).at(),
            res is None ==> final(self).at() == old(self).at(),
            res is Some ==> final(self).at() == set_op_right(old(self).toks(), old(self).at()),
    {
        let k = match self.kind() {
            Some(TokenKind::Keyword(k)) => k,
            _ => return None,
        };
        if !(k == Keyword::Union || k == Keyword::Intersect || k == Keyword::Except || k
            == Keyword::Minus) {
            return None;
        }
        let _ = self.advance();
        let all = self.kw(Keyword::All).is_some();
        Some(
            if k == Keyword::Union {
                SetOp::Union { all }
            } else if k == Keyword::Intersect {
                SetOp::Intersect { all }
            } else if k == Keyword::Except {
                SetOp::Except { all }
            } else {
                SetOp::Minus { all }
            },
        )
    }

    fn parse_query_primary(&mut self) -> (res: Option<QueryPrimary>)
        requires
            old(self).wf(),
        ensures
            final(self).moved(*old(self)),
            simple_select_at(old(self).toks(), old(self).at()) ==> (res matches Some(QueryPrimary::Select(sel))
                && is_simple_select(sel.item, old(self).toks(), old(self).at())) && final(self).at() == select_end(
                old(self).toks(),
                old(self).at(),
            ),
            join_select_at(old(self).toks(), old(self).at()) ==> (res matches Some(QueryPrimary::Select(sel))
                && is_join_select(sel.item, old(self).toks(), old(self).at())) && final(self).at() == table_chain_end(
                old(self).toks(),
                old(self).at() + 3,
            ),
            list_core_at(old(self).toks(), old(self).at()) ==> (res matches Some(QueryPrimary::Select(sel))
                && is_list_select(sel.item, old(self).toks(), old(self).at())) && final(self).at() == list_select_end(
                old(self).toks(),
                old(self).at(),
            ),
            !(old(self).kind_now() == Some(TokenKind::Keyword(Keyword::Select)) || old(self).kind_now() == Some(
                TokenKind::Keyword(Keyword::Values),
            )) ==> res is None,
            res is Some ==> final(self).at() > old(self).at(),
            old(self).kind_now() == Some(TokenKind::Keyword(Keyword::Select)) ==> res matches Some(
                QueryPrimary::Select(_),
            ),
        decreases old(self).rem(), 18nat,
    {
        let k = self.kind()?;
        if k == TokenKind::Keyword(Keyword::Select) {
            let s = self.pos();
            let sel = self.parse_select()?;
            Some(QueryPrimary::Select(Loc::new(self.span_from(s), sel)))
        } else if k == TokenKind::Keyword(Keyword::Values) {
            let s = self.pos();
            let v = self.parse_values()?;
            Some(QueryPrimary::Values(Loc::new(self.span_from(s), v)))
        } else {
            None
        }
    }

    /// `INSERT INTO name [(columns)] DEFAULT VALUES | VALUES .. | query
    /// [RETURNING ..]`
    #[verifier::rlimit(60)]
    pub(crate) fn parse_insert(&mut self) -> (res: Option<Insert>)
        requires
            old(self).wf(),
        ensures
            final(self).moved(*old(self)),
            simple_insert_at(old(self).toks(), old(self).at()) ==> (res matches Some(i) && is_simple_insert(
                i,
                old(self).toks(),
                old(self).at(),
            )) && final(self).at() == old(self).at() + 10,
            ({
                let ts = old(self).toks();
                let p = old(self).at();
                &&& !kw_at(ts, p, Keyword::Insert) ==> res is None && final(self).at() == p
                &&& kw_at(ts, p, Keyword::Insert) && kw_at(ts, p + 1, Keyword::Into) && ident_kind(kind_at(ts, p + 2)) && kw_at(
                    ts,
                    p + 3,
                    Keyword::Default,
                ) && kw_at(ts, p + 4, Keyword::Values) && !kw_at(ts, p + 5, Keyword::Returning) ==> (res matches Some(i)
                    && i.source is Default && i.columns is None && i.returning is None) && final(self).at() == p + 5
            }),
            res is Some ==> final(self).at() > old(self).at(),
            ({
                let ts = old(self).toks();
                let p = old(self).at();
                res is Some ==> kind_at(ts, p + 1) == Some(TokenKind::Keyword(Keyword::Into)) && name_part_kind(
                    kind_at(ts, p + 2),
                )
            }),
            insert_ok_at(old(self).toks(), old(self).at()) ==> res is Some,
        decreases old(self).rem(), 5nat,
    {
        self.kw(Keyword::Insert)?;
        self.kw(Keyword::Into)?;
        let s = self.pos();
        let qn = self.parse_qualified_name()?;
        let table = Loc::new(self.span_from(s), qn);
        let columns = self.paren_idents();
        let source = if self.kw(Keyword::Default).is_some() {
            let _ = self.kw(Keyword::Values);
            InsertSource::Default
        } else if self.kind() == Some(TokenKind::Keyword(Keyword::Values)) {
            let s = self.pos();
            let v = self.parse_values()?;
            InsertSource::Values(Loc::new(self.span_from(s), v))
        } else {
            let s = self.pos();
            let q = self.parse_query();
            InsertSource::Query(Box::new(Loc::new(self.span_from(s), q)))
        };
        let returning = self.parse_returning();
        Some(Insert { table, columns, source, returning })
    }

    /// `VALUES (exprs), ...`
    fn parse_values(&mut self) -> (res: Option<Values>)
        requires
            old(self).wf(),
        ensures
            final(self).moved(*old(self)),
            ({
                let ts = old(self).toks();
                let p = old(self).at();
                kw_at(ts, p, Keyword::Values) && kind_at(ts, p + 1) == Some(TokenKind::LeftParen) && lone_literal(ts, p + 2)
                    && kind_at(ts, p + 3) == Some(TokenKind::RightParen) && kind_at(ts, p + 4) != Some(TokenKind::Comma)
                    ==> (res matches Some(v) && v.rows@.len() == 1 && v.rows@[0].item.items@.len() == 1
                    && v.rows@[0].item.items@[0].item == literal_expr_at(ts, p + 2)) && final(self).at() == p + 4
            }),
            ({
                let ts = old(self).toks();
                let p = old(self).at();
                &&& res is Some ==> kw_at(ts, p, Keyword::Values) && kind_at(ts, p + 1) == Some(TokenKind::LeftParen)
                &&& res matches Some(v) ==> v.rows@.len() >= 1
                &&& !kw_at(ts, p, Keyword::Values) ==> res is None && final(self).at() == p
                &&& kw_at(ts, p, Keyword::Values) && kind_at(ts, p + 1) == Some(TokenKind::LeftParen) && kind_at(ts, p + 2)
                    == Some(TokenKind::RightParen) && kind_at(ts, p + 3) != Some(TokenKind::Comma) ==> (res matches Some(v)
                    && v.rows@.len() == 1 && v.rows@[0].item.items@.len() == 0) && final(self).at() == p + 3
            }),
            res is Some ==> final(self).at() > old(self).at(),
            kw_at(old(self).toks(), old(self).at(), Keyword::Values) && rows_ok(old(self).toks(), old(self).at() + 1)
                ==> res is Some,
        decreases old(self).rem(), 17nat,
    {
        let ghost p0 = self.at();
        let ghost ts = self.toks();
        self.kw(Keyword::Values)?;
        let mut rows: Vec<Loc<DelimitedList<Loc<Expr>>>> = Vec::new();
        loop
            invariant_except_break
                rows@.len() == 0 ==> self.at() == p0 + 1,
                ts == old(self).toks(),
                rows_ok(ts, p0 + 1) ==> rows_ok(ts, self.at()),
                kind_at(old(self).toks(), p0 + 2) == Some(TokenKind::RightParen) && kind_at(old(self).toks(), p0 + 3) != Some(
                    TokenKind::Comma,
                ) ==> rows@.len() == 0,
                lone_literal(old(self).toks(), p0 + 2) && kind_at(old(self).toks(), p0 + 3) == Some(TokenKind::RightParen)
                    && kind_at(old(self).toks(), p0 + 4) != Some(TokenKind::Comma) ==> rows@.len() == 0,
            invariant
                kw_at(old(self).toks(), p0, Keyword::Values),
                self.moved(*old(self)),
                self.at() > p0,
                p0 == old(self).at(),
                rows@.len() > 0 ==> kind_at(old(self).toks(), p0 + 1) == Some(TokenKind::LeftParen),
            ensures
                self.moved(*old(self)),
                self.at() > p0,
                rows@.len() >= 1,
                kind_at(old(self).toks(), p0 + 1) == Some(TokenKind::LeftParen),
                ({
                    let ts = old(self).toks();
                    kind_at(ts, p0 + 2) == Some(TokenKind::RightParen) && kind_at(ts, p0 + 3) != Some(TokenKind::Comma)
                        ==> rows@.len() == 1 && rows@[0].item.items@.len() == 0 && self.at() == p0 + 3
                }),
                ({
                    let ts = old(self).toks();
                    lone_literal(ts, p0 + 2) && kind_at(ts, p0 + 3) == Some(TokenKind::RightParen) && kind_at(ts, p0 + 4)
                        != Some(TokenKind::Comma) ==> rows@.len() == 1 && rows@[0].item.items@.len() == 1
                        && rows@[0].item.items@[0].item == literal_expr_at(ts, p0 + 2) && self.at() == p0 + 4
                }),
            decreases self.rem(),
        {
            let ghost q = self.at();
            self.eat(TokenKind::LeftParen)?;
            let row = self.args_exprs();
            let _ = self.eat(TokenKind::RightParen);
            let here = self.pos();
            rows.push(Loc::new(self.span_from(here), row));
            proof {
                if rows_ok(ts, p0 + 1) {
                    if kind_at(ts, q + 1) != Some(TokenKind::RightParen) {
                        lemma_atoms_end_after(ts, q + 1);
                    }
                    assert(self.at() == row_close(ts, q) + 1);
                }
            }
            if self.eat(TokenKind::Comma).is_none() {
                break;
            }
        }
        Some(Values { rows })
    }

    /// `UPDATE name [alias] SET col = expr, ... [FROM ..] [WHERE ..]
    /// [RETURNING ..]`
    #[verifier::rlimit(40)]
    pub(crate) fn parse_update(&mut self) -> (res: Option<Update>)
        requires
            old(self).wf(),
        ensures
            final(self).moved(*old(self)),
            ({
                let ts = old(self).toks();
                let p = old(self).at();
                &&& res is Some ==> kw_at(ts, p, Keyword::Update)
                &&& !kw_at(ts, p, Keyword::Update) ==> res is None && final(self).at() == p
                &&& kw_at(ts, p, Keyword::Update) && ident_kind(kind_at(ts, p + 1)) && kw_at(ts, p + 2, Keyword::SetKw)
                    && ident_kind(kind_at(ts, p + 3)) && op_at(ts, p + 4, OpTag::Eq) && lone_literal(ts, p + 5) && closer_kind(
                    kind_at(ts, p + 6),
                ) ==> (res matches Some(u) && u.alias is None && u.assignments.items@.len() == 1 && u.from is None
                    && u.where_clause is None && u.returning is None) && final(self).at() == p + 6
                &&& simple_update_at(ts, p) ==> (res matches Some(u) && is_simple_update(u, ts, p))
            }),
            res is Some ==> final(self).at() > old(self).at(),
            update_ok_at(old(self).toks(), old(self).at()) ==> res is Some,
        decreases old(self).rem(), 5nat,
    {
        self.kw(Keyword::Update)?;
        let s = self.pos();
        let qn = self.parse_qualified_name()?;
        let table = Loc::new(self.span_from(s), qn);
        let alias = self.alias();
        self.kw(Keyword::SetKw)?;
        let assignments = self.list_assignments()?;
        let cp = self.pos;
        let s = self.pos();
        let from = match self.parse_from() {
            Some(f) => Some(Loc::new(self.span_from(s), f)),
            None => {
                self.pos = cp;
                None
            },
        };
        let cp = self.pos;
        let s = self.pos();
        let where_clause = match self.parse_where() {
            Some(w) => Some(Loc::new(self.span_from(s), w)),
            None => {
                self.pos = cp;
                None
            },
        };
        let returning = self.parse_returning();
        Some(Update { table, alias, assignments, from, where_clause, returning })
    }

    /// `column = expr`
    fn parse_assignment(&mut self) -> (res: Option<Assignment>)
        requires
            old(self).wf(),
        ensures
            final(self).moved(*old(self)),
            ({
                let ts = old(self).toks();
                let p = old(self).at();
                &&& res is Some ==> ident_kind(kind_at(ts, p)) && op_at(ts, p + 1, OpTag::Eq)
                &&& ident_kind(kind_at(ts, p)) && op_at(ts, p + 1, OpTag::Eq) && lone_literal(ts, p + 2) ==> (
                res matches Some(a) && a.column.item == ts[p].span && a.value.item == literal_expr_at(ts, p + 2))
                    && final(self).at() == p + 3
                &&& !ident_kind(kind_at(ts, p)) ==> res is None && final(self).at() == p
                &&& ident_kind(kind_at(ts, p)) && op_at(ts, p + 1, OpTag::Eq) && atom_at(ts, p + 2) ==> res is Some
            }),
            res is Some ==> final(self).at() > old(self).at(),
        decreases old(self).rem(), 11nat,
    {
        let s = self.pos();
        let id = self.ident()?;
        let column = Loc::new(self.span_from(s), id);
        self.op(OpTag::Eq)?;
        let s = self.pos();
        let e = self.parse_expr()?;
        Some(Assignment { column, value: Loc::new(self.span_from(s), e) })
    }

    /// `DELETE FROM name [alias] [USING ..] [WHERE ..] [RETURNING ..]`
    #[verifier::rlimit(60)]
    pub(crate) fn parse_delete(&mut self) -> (res: Option<Delete>)
        requires
            old(self).wf(),
        ensures
            final(self).moved(*old(self)),
            res is Some ==> final(self).at() > old(self).at(),
            ({
                let ts = old(self).toks();
                let p = old(self).at();
                res is Some <==> kind_at(ts, p) == Some(TokenKind::Keyword(Keyword::Delete)) && kind_at(ts, p + 1)
                    == Some(TokenKind::Keyword(Keyword::From)) && name_part_kind(kind_at(ts, p + 2))
            }),
            simple_delete_at(old(self).toks(), old(self).at()) ==> (res matches Some(d) && is_simple_delete(
                d,
                old(self).toks(),
                old(self).at(),
            )),
        decreases old(self).rem(), 5nat,
    {
        self.kw(Keyword::Delete)?;
        self.kw(Keyword::From)?;
        let s = self.pos();
        let qn = self.parse_qualified_name()?;
        let table = Loc::new(self.span_from(s), qn);
        let alias = self.alias();
        let using = if self.kw(Keyword::Using).is_some() {
            let here = self.pos();
            let span = self.span_from(here);
            let sources = match self.list_table_refs() {
                Some(l) => l,
                None => DelimitedList::new(),
            };
            Some(Loc::new(span, FromClause { sources }))
        } else {
            None
        };
        let cp = self.pos;
        let s = self.pos();
        let where_clause = match self.parse_where() {
            Some(w) => Some(Loc::new(self.span_from(s), w)),
            None => {
                self.pos = cp;
                None
            },
        };
        let returning = self.parse_returning();
        Some(Delete { table, alias, using, where_clause, returning })
    }

    /// `RETURNING items`
    fn parse_returning(&mut self) -> (res: Option<Loc<Projection>>)
        requires
            old(self).wf(),
        ensures
            final(self).moved(*old(self)),
            res is Some <==> old(self).kind_now() == Some(TokenKind::Keyword(Keyword::Returning)),
            res is None ==> final(self).at() == old(self).at(),
            res matches Some(r) ==> r.item.list.items@.len() >= 1,
            ({
                let ts = old(self).toks();
                let p = old(self).at();
                kw_at(ts, p, Keyword::Returning) && lone_literal(ts, p + 1) && closer_kind(kind_at(ts, p + 2)) ==> (
                res matches Some(r) && r.item.list.items@.len() == 1 && r.item.list.items@[0].item.expr.item
                    == literal_expr_at(ts, p + 1)) && final(self).at() == p + 2
            }),
        decreases old(self).rem(), 5nat,
    {
        self.kw(Keyword::Returning)?;
        let s = self.pos();
        let p = self.parse_projection();
        Some(Loc::new(self.span_from(s), p))
    }

    /// `SELECT [DISTINCT ..] items [FROM] [WHERE] [GROUP BY] [HAVING] [WINDOW]`
    #[verifier::rlimit(80)]
    fn parse_select(&mut self) -> (res: Option<Select>)
        requires
            old(self).wf(),
        ensures
            final(self).moved(*old(self)),
            simple_select_at(old(self).toks(), old(self).at()) ==> (res matches Some(sel) && is_simple_select(
                sel,
                old(self).toks(),
                old(self).at(),
            )) && final(self).at() == select_end(old(self).toks(), old(self).at()),
            join_select_at(old(self).toks(), old(self).at()) ==> (res matches Some(sel) && is_join_select(
                sel,
                old(self).toks(),
                old(self).at(),
            )) && final(self).at() == table_chain_end(old(self).toks(), old(self).at() + 3),
            list_core_at(old(self).toks(), old(self).at()) ==> (res matches Some(sel) && is_list_select(
                sel,
                old(self).toks(),
                old(self).at(),
            )) && final(self).at() == list_select_end(old(self).toks(), old(self).at()),
            res is Some ==> final(self).at() > old(self).at(),
            res is Some <==> old(self).kind_now() == Some(TokenKind::Keyword(Keyword::Select)),
        decreases old(self).rem(), 17nat,
    {
        proof {
            let ts = self.toks();
            let p = self.at();
            if list_core_at(ts, p) {
                assert(item_list(ts, p + 1, item_count(ts, p + 1)));
                assert(item_pos(ts, p + 1, 0) == p + 1);
                assert(item_ok(ts, item_pos(ts, p + 1, 0)));
            }
        }
        self.kw(Keyword::Select)?;
        let distinct = match self.parse_distinct() {
            Some(d) => d,
            None => SetQuantifier::All,
        };
        let start = self.end(0);
        let proj = self.parse_projection();
        let projection = Loc::new(Span::new(start, self.end(start)), proj);
        proof {
            let ts = self.toks();
            let p = old(self).at();
            if list_core_at(ts, p) {
                assert(self.at() == items_end(ts, p + 1));
                assert(items_are(proj.list, ts, p + 1, item_count(ts, p + 1)));
            }
        }
        let cp = self.pos;
        let s = self.pos();
        let from = match self.parse_from() {
            Some(f) => Some(Loc::new(self.span_from(s), f)),
            None => {
                self.pos = cp;
                None
            },
        };
        let cp = self.pos;
        let s = self.pos();
        let where_clause = match self.parse_where() {
            Some(w) => Some(Loc::new(self.span_from(s), w)),
            None => {
                self.pos = cp;
                None
            },
        };
        let cp = self.pos;
        let s = self.pos();
        let group_by = match self.parse_group_by() {
            Some(g) => Some(Loc::new(self.span_from(s), g)),
            None => {
                self.pos = cp;
                None
            },
        };
        let cp = self.pos;
        let having = match self.parse_having() {
            Some(h) => Some(h),
            None => {
                self.pos = cp;
                None
            },
        };
        let cp = self.pos;
        let s = self.pos();
        let window = match self.parse_window() {
            Some(w) => Some(Loc::new(self.span_from(s), w)),
            None => {
                self.pos = cp;
                None
            },
        };
        Some(
            Select {
                distinct,
                projection,
                from,
                where_clause,
                group_by,
                having,
                window,
                qualify: None,
            },
        )
    }

    /// `DISTINCT [ON (exprs)]`
    fn parse_distinct(&mut self) -> (res: Option<SetQuantifier>)
        requires
            old(self).wf(),
        ensures
            final(self).moved(*old(self)),
            ({
                let ts = old(self).toks();
                let p = old(self).at();
                &&& !kw_at(ts, p, Keyword::Distinct) ==> res is None && final(self).at() == p
                &&& kw_at(ts, p, Keyword::Distinct) && !kw_at(ts, p + 1, Keyword::On) ==> (res matches Some(
                    SetQuantifier::Distinct,
                )) && final(self).at() == p + 1
                &&& kw_at(ts, p, Keyword::Distinct) && kw_at(ts, p + 1, Keyword::On) ==> (res is Some <==> kind_at(ts, p + 2)
                    == Some(TokenKind::LeftParen)) && (res matches Some(q) ==> q is DistinctOn)
            }),
        decreases old(self).rem(), 5nat,
    {
        self.kw(Keyword::Distinct)?;
        if self.kw(Keyword::On).is_some() {
            self.eat(TokenKind::LeftParen)?;
            let items = self.args_exprs();
            let _ = self.eat(TokenKind::RightParen);
            return Some(SetQuantifier::DistinctOn(items));
        }
        Some(SetQuantifier::Distinct)
    }

    /// The select items; an item with no expression where none parses.
    fn parse_projection(&mut self) -> (res: Projection)
        requires
            old(self).wf(),
        ensures
            final(self).moved(*old(self)),
            ({
                let ts = old(self).toks();
                let p = old(self).at();
                simple_item_at(ts, p) && clause_end_kind(kind_at(ts, p + 1)) ==> res.list.items@.len() == 1
                    && simple_item_is(res.list.items@[0].item.expr.item, ts, p) && res.list.items@[0].item.alias is None
                    && final(self).at() == p + 1
            }),
            res.list.items@.len() >= 1,
            ({
                let ts = old(self).toks();
                let p = old(self).at();
                &&& closer_kind(kind_at(ts, p)) ==> res.list.items@.len() == 1 && res.list.items@[0].item.expr.item is Empty
                    && final(self).at() == p
                &&& lone_literal(ts, p) && closer_kind(kind_at(ts, p + 1)) ==> res.list.items@.len() == 1
                    && res.list.items@[0].item.expr.item == literal_expr_at(ts, p) && final(self).at() == p + 1
            }),
            forall|m: nat| #[trigger] item_list(old(self).toks(), old(self).at(), m) ==> items_are(
                res.list,
                old(self).toks(),
                old(self).at(),
                m,
            ) && final(self).at() == item_end(old(self).toks(), item_pos(old(self).toks(), old(self).at(), (m - 1) as nat)),
        decreases old(self).rem(), 13nat,
    {
        Projection { list: self.list_projection_items() }
    }

    fn parse_projection_item(&mut self) -> (res: ProjectionItem)
        requires
            old(self).wf(),
        ensures
            final(self).moved(*old(self)),
            ({
                let ts = old(self).toks();
                let p = old(self).at();
                &&& lone_literal(ts, p) && !ident_kind(kind_at(ts, p + 1)) && !kw_at(ts, p + 1, Keyword::As) ==> res.expr.item
                    == literal_expr_at(ts, p) && res.alias is None && final(self).at() == p + 1
                &&& simple_item_at(ts, p) && clause_end_kind(kind_at(ts, p + 1)) ==> simple_item_is(res.expr.item, ts, p)
                    && res.alias is None && final(self).at() == p + 1
            }),
            ({
                let ts = old(self).toks();
                let p = old(self).at();
                &&& closer_kind(kind_at(ts, p)) ==> res.expr.item is Empty && res.alias is None && final(self).at() == p
                &&& lone_literal(ts, p) && closer_kind(kind_at(ts, p + 1)) ==> res.expr.item == literal_expr_at(ts, p)
                    && res.alias is None && final(self).at() == p + 1
            }),
            item_ok(old(self).toks(), old(self).at()) ==> simple_item_is(res.expr.item, old(self).toks(), old(self).at())
                && alias_of(res.alias) == alias_at(old(self).toks(), old(self).at() + 1) && final(self).at() == item_end(
                old(self).toks(),
                old(self).at(),
            ),
        decreases old(self).rem(), 11nat,
    {
        let s = self.pos();
        let e = match self.parse_expr() {
            Some(e) => e,
            None => Expr::Empty,
        };
        let expr = Loc::new(self.span_from(s), e);
        let alias = self.alias();
        ProjectionItem { expr, alias }
    }

    fn parse_from(&mut self) -> (res: Option<FromClause>)
        requires
            old(self).wf(),
        ensures
            final(self).moved(*old(self)),
            ({
                let ts = old(self).toks();
                let p = old(self).at();
                kw_at(ts, p, Keyword::From) && ident_kind(kind_at(ts, p + 1)) && from_end_kind(kind_at(ts, p + 2)) ==> (
                res matches Some(f) && f.sources.items@.len() == 1 && (f.sources.items@[0].item matches TableRef::Factor(tf)
                    && tf.item matches TableFactor::Named(n) && one_part_name_at(n.item.name, ts, p + 1) && n.item.alias is None))
                    && final(self).at() == p + 2
            }),
            res is Some <==> old(self).kind_now() == Some(TokenKind::Keyword(Keyword::From)),
            res is None ==> final(self).at() == old(self).at(),
            ({
                let ts = old(self).toks();
                let p = old(self).at();
                kw_at(ts, p, Keyword::From) && ident_kind(kind_at(ts, p + 1)) && closer_kind(kind_at(ts, p + 2)) ==> (
                res matches Some(f) && f.sources.items@.len() == 1) && final(self).at() == p + 2
            }),
            res is Some ==> final(self).at() > old(self).at(),
            ({
                let ts = old(self).toks();
                let p = old(self).at();
                kw_at(ts, p, Keyword::From) && table_chain_at(ts, p + 1) && kind_at(ts, table_chain_end(ts, p + 1)) != Some(TokenKind::Comma)
                    ==> (res matches Some(f) && f.sources.items@.len() == 1 && join_tree_is(
                    f.sources.items@[0].item,
                    ts,
                    p + 1,
                    table_join_count(ts, p + 1),
                )) && final(self).at() == table_chain_end(ts, p + 1)
            }),
        decreases old(self).rem(), 5nat,
    {
        self.kw(Keyword::From)?;
        let sources = match self.list_table_refs() {
            Some(l) => l,
            None => DelimitedList::new(),
        };
        Some(FromClause { sources })
    }

    /// A table factor and the joins after it, left to right.
    #[verifier::spinoff_prover]
    fn parse_table_ref(&mut self) -> (res: Option<TableRef>)
        requires
            old(self).wf(),
        ensures
            final(self).moved(*old(self)),
            ident_kind(old(self).kind_now()) && from_end_kind(kind_at(old(self).toks(), old(self).at() + 1)) ==> (res matches Some(
                TableRef::Factor(f),
            ) && f.item matches TableFactor::Named(n) && one_part_name_at(n.item.name, old(self).toks(), old(self).at())
                && n.item.alias is None) && final(self).at() == old(self).at() + 1,
            ({
                let ts = old(self).toks();
                let p = old(self).at();
                &&& closer_kind(kind_at(ts, p)) ==> res is None && final(self).at() == p
                &&& ident_kind(kind_at(ts, p)) && closer_kind(kind_at(ts, p + 1)) ==> (res matches Some(
                    TableRef::Factor(f),
                ) && f.item is Named) && final(self).at() == p + 1
            }),
            res is Some ==> final(self).at() > old(self).at(),
            ({
                let ts = old(self).toks();
                let p = old(self).at();
                forall|m: nat| named_factor_at(ts, p) && #[trigger] join_chain(ts, named_factor_end(ts, p), m)
                    ==> (res matches Some(r) && join_tree_is(r, ts, p, m)) && final(self).at() == chain_pos(
                    ts,
                    named_factor_end(ts, p),
                    m,
                )
            }),
        decreases old(self).rem(), 5nat,
    {
        let ghost p0 = self.at();
        let ghost ts0 = self.toks();
        let ghost e0 = named_factor_end(ts0, p0);
        let ghost mut i: nat = 0;
        let start = self.pos();
        let mut left = self.parse_table_factor()?;
        loop
            invariant
                self.moved(*old(self)),
                self.at() > p0,
                p0 == old(self).at(),
                ts0 == old(self).toks(),
                e0 == named_factor_end(ts0, p0),
                start == spec_pos(ts0, p0),
                forall|m: nat| named_factor_at(ts0, p0) && #[trigger] join_chain(ts0, e0, m) ==> i <= m && self.at()
                    == chain_pos(ts0, e0, i) && join_tree_is(left, ts0, p0, i),
                ident_kind(kind_at(old(self).toks(), p0)) && from_end_kind(kind_at(old(self).toks(), p0 + 1)) ==> self.at()
                    == p0 + 1 && (left matches TableRef::Factor(f) && f.item matches TableFactor::Named(n) && one_part_name_at(
                    n.item.name,
                    old(self).toks(),
                    p0,
                ) && n.item.alias is None),
                !closer_kind(kind_at(old(self).toks(), p0)),
                ident_kind(kind_at(old(self).toks(), p0)) && closer_kind(kind_at(old(self).toks(), p0 + 1))
                    ==> self.at() == p0 + 1 && (left matches TableRef::Factor(f) && f.item is Named),
            ensures
                self.moved(*old(self)),
                self.at() > p0,
                forall|m: nat| named_factor_at(ts0, p0) && #[trigger] join_chain(ts0, e0, m) ==> i == m && self.at()
                    == chain_pos(ts0, e0, i) && join_tree_is(left, ts0, p0, i),
                ident_kind(kind_at(old(self).toks(), p0)) && from_end_kind(kind_at(old(self).toks(), p0 + 1)) ==> self.at()
                    == p0 + 1 && (left matches TableRef::Factor(f) && f.item matches TableFactor::Named(n) && one_part_name_at(
                    n.item.name,
                    old(self).toks(),
                    p0,
                ) && n.item.alias is None),
                ident_kind(kind_at(old(self).toks(), p0)) && closer_kind(kind_at(old(self).toks(), p0 + 1))
                    ==> self.at() == p0 + 1 && (left matches TableRef::Factor(f) && f.item is Named),
            decreases self.rem(),
        {
            let ghost ei = self.at();
            let kind = match self.parse_join_kind() {
                Some(k) => k,
                None => {
                    proof {
                        assert forall|m: nat| named_factor_at(ts0, p0) && #[trigger] join_chain(ts0, e0, m) implies i
                            == m by {
                            if i < m {
                                assert(join_step_ok(ts0, chain_pos(ts0, e0, i)));
                            }
                        };
                    }
                    break;
                },
            };
            proof {
                assert forall|m: nat| named_factor_at(ts0, p0) && #[trigger] join_chain(ts0, e0, m) implies i < m
                    && join_step_ok(ts0, ei) by {
                    assert(chain_pos(ts0, e0, i) == ei);
                    assert(i != m);
                    assert(join_step_ok(ts0, chain_pos(ts0, e0, i)));
                };
            }
            let rs = self.pos();
            let right = match self.parse_table_factor() {
                Some(r) => r,
                None => {
                    proof {
                        assert forall|m: nat| named_factor_at(ts0, p0) && #[trigger] join_chain(ts0, e0, m) implies false by {
                            assert(join_step_ok(ts0, ei));
                        };
                    }
                    return None;
                },
            };
            let cp = self.pos;
            let s = self.pos();
            let constraint = match self.parse_join_constraint() {
                Some(c) => Some(Loc::new(self.span_from(s), c)),
                None => {
                    self.pos = cp;
                    None
                },
            };
            let span = Span::new(start, self.end(rs));
            let right_span = Span::new(rs, span.end);
            left =
            TableRef::Join(
                Loc::new(
                    span,
                    Join {
                        left: Box::new(Loc::new(span, left)),
                        kind,
                        right: Box::new(Loc::new(right_span, right)),
                        constraint,
                    },
                ),
            );
            proof {
                assert forall|m: nat| named_factor_at(ts0, p0) && #[trigger] join_chain(ts0, e0, m) implies i + 1 <= m
                    && self.at() == chain_pos(ts0, e0, i + 1) && join_tree_is(left, ts0, p0, i + 1) by {
                    assert(chain_pos(ts0, e0, i) == ei);
                    assert(i != m);
                    assert(join_step_ok(ts0, chain_pos(ts0, e0, i)));
                    assert(chain_pos(ts0, e0, i + 1) == crate::parse::parser::join_step_end(ts0, ei));
                };
                i = i + 1;
            }
        }
        Some(left)
    }

    /// `[LATERAL]` then `(subquery) [alias]`, `(table ref)`,
    /// `name(args) [alias] [(columns)]` or `name [alias]`.
    /// `[LATERAL]` then a subquery, a parenthesized source, a table function
    /// call or a named table, each with an optional alias.
    #[verifier::rlimit(40)]
    fn parse_table_factor(&mut self) -> (res: Option<TableRef>)
        requires
            old(self).wf(),
        ensures
            final(self).moved(*old(self)),
            ({
                let ts = old(self).toks();
                let p = old(self).at();
                &&& closer_kind(kind_at(ts, p)) ==> res is None && final(self).at() == p
                &&& ident_kind(kind_at(ts, p)) && closer_kind(kind_at(ts, p + 1)) ==> (res matches Some(
                    TableRef::Factor(f),
                ) && f.item is Named) && final(self).at() == p + 1
            }),
            res is Some ==> final(self).at() > old(self).at(),
            ({
                let ts = old(self).toks();
                let p = old(self).at();
                let lat = kind_at(ts, p) == Some(TokenKind::Keyword(Keyword::Lateral));
                let q = if lat { p + 1 } else { p };
                let opens = kind_at(ts, q) == Some(TokenKind::LeftParen);
                let query_next = kind_at(ts, q + 1) == Some(TokenKind::Keyword(Keyword::Select))
                    || kind_at(ts, q + 1) == Some(TokenKind::Keyword(Keyword::With));
                &&& opens && query_next ==> (res matches Some(TableRef::Factor(f)) && (
                f.item matches TableFactor::Subquery(sq) && sq.item.lateral == lat))
                &&& opens && !query_next ==> (res is None || (res matches Some(TableRef::Factor(f))
                    && f.item is Parenthesized))
                &&& !opens ==> (res is None || (res matches Some(TableRef::Factor(f)) && ((
                f.item matches TableFactor::Function(g) && g.item.lateral == lat) || (
                f.item matches TableFactor::Named(n) && n.item.lateral == lat))))
                &&& res matches Some(TableRef::Factor(f)) ==> f.span.start == spec_pos(ts, p)
                    && f.span.end == spec_prev_end(ts, final(self).at(), f.span.start)
            }),
            ({
                let ts = old(self).toks();
                let p = old(self).at();
                let lat = kind_at(ts, p) == Some(TokenKind::Keyword(Keyword::Lateral));
                let q = if lat { p + 1 } else { p };
                &&& lone_name_at(ts, q) && kind_at(ts, q + 1) != Some(TokenKind::LeftParen) ==> (res matches Some(
                    TableRef::Factor(f),
                ) && f.item matches TableFactor::Named(n) && n.item.lateral == lat && one_part_name_at(
                    n.item.name,
                    ts,
                    q,
                ) && alias_of(n.item.alias) == alias_at(ts, q + 1)) && (alias_settled(ts, q + 1)
                    ==> final(self).at() == q + 1 + alias_len(ts, q + 1))
                &&& lone_name_at(ts, q) && kind_at(ts, q + 1) == Some(TokenKind::LeftParen) && kind_at(ts, q + 2)
                    == Some(TokenKind::RightParen) ==> table_function_at(res, ts, lat, q + 3, 0, final(self).at())
                &&& lone_name_at(ts, q) && kind_at(ts, q + 1) == Some(TokenKind::LeftParen) && lone_literal(ts, q + 2)
                    && kind_at(ts, q + 3) == Some(TokenKind::RightParen) ==> table_function_at(
                    res,
                    ts,
                    lat,
                    q + 4,
                    1,
                    final(self).at(),
                ) && (res matches Some(TableRef::Factor(f)) ==> f.item matches TableFactor::Function(g)
                    ==> g.item.args.items@[0].item == literal_expr_at(ts, q + 2))
                &&& lone_name_at(ts, q) ==> (res matches Some(TableRef::Factor(f)) ==> f.item matches TableFactor::Function(
                    g,
                ) ==> one_part_name_at(g.item.name, ts, q))
                &&& name_part_kind(kind_at(ts, q)) && kind_at(ts, name_end(ts, q + 1)) != Some(TokenKind::LeftParen)
                    ==> (res matches Some(TableRef::Factor(f)) && f.item matches TableFactor::Named(n) && n.item.lateral
                    == lat && qname_at(n.item.name, ts, q) && alias_of(n.item.alias) == alias_at(ts, name_end(ts, q + 1))
                    && n.span == f.span) && (alias_settled(ts, name_end(ts, q + 1)) ==> final(self).at() == name_end(
                    ts,
                    q + 1,
                ) + alias_len(ts, name_end(ts, q + 1)))
                &&& !lat && named_factor_at(ts, p) ==> (res matches Some(r) && named_factor_is(r, ts, p))
                    && final(self).at() == named_factor_end(ts, p)
                &&& forall|m: nat| kind_at(ts, q) == Some(TokenKind::LeftParen) && named_factor_at(ts, q + 1)
                    && #[trigger] join_chain(ts, named_factor_end(ts, q + 1), m) ==> (res matches Some(
                    TableRef::Factor(f),
                ) && f.item matches TableFactor::Parenthesized(inner) && join_tree_is(inner.item, ts, q + 1, m)) && (
                kind_at(ts, chain_pos(ts, named_factor_end(ts, q + 1), m)) == Some(TokenKind::RightParen)
                    ==> final(self).at() == chain_pos(ts, named_factor_end(ts, q + 1), m) + 1)
            }),
        decreases old(self).rem(), 4nat,
    {
        let start = self.pos();
        let lateral = self.kw(Keyword::Lateral).is_some();
        if self.eat(TokenKind::LeftParen).is_some() {
            let k = self.kind();
            if k == Some(TokenKind::Keyword(Keyword::Select)) || k == Some(
                TokenKind::Keyword(Keyword::With),
            ) {
                let s = self.pos();
                let q = self.parse_query();
                let query = Loc::new(self.span_from(s), q);
                let _ = self.eat(TokenKind::RightParen);
                let alias = self.alias();
                let span = self.span_from(start);
                return Some(
                    TableRef::Factor(
                        Loc::new(
                            span,
                            TableFactor::Subquery(
                                Loc::new(span, SubqueryTableFactor { query, alias, lateral }),
                            ),
                        ),
                    ),
                );
            }
            let s = self.pos();
            let t = self.parse_table_ref()?;
            let inner = Box::new(Loc::new(self.span_from(s), t));
            let _ = self.eat(TokenKind::RightParen);
            return Some(
                TableRef::Factor(
                    Loc::new(self.span_from(start), TableFactor::Parenthesized(inner)),
                ),
            );
        }
        let s = self.pos();
        let qn = self.parse_qualified_name()?;
        let name = Loc::new(self.span_from(s), qn);
        if self.eat(TokenKind::LeftParen).is_some() {
            let args = self.args_exprs();
            let _ = self.eat(TokenKind::RightParen);
            let alias = self.alias();
            let columns = self.paren_ident_or_keywords();
            let span = self.span_from(start);
            return Some(
                TableRef::Factor(
                    Loc::new(
                        span,
                        TableFactor::Function(
                            Loc::new(
                                span,
                                FunctionTableFactor { name, args, alias, columns, lateral },
                            ),
                        ),
                    ),
                ),
            );
        }
        let alias = self.alias();
        let span = self.span_from(start);
        Some(
            TableRef::Factor(
                Loc::new(
                    span,
                    TableFactor::Named(Loc::new(span, NamedTableFactor { name, alias, lateral })),
                ),
            ),
        )
    }

    /// `[NATURAL]` then `[INNER] JOIN`, `LEFT|RIGHT|FULL [OUTER] JOIN`,
    /// `CROSS JOIN` or `JOIN`.
    fn parse_join_kind(&mut self) -> (res: Option<JoinKind>)
        requires
            old(self).wf(),
        ensures
            final(self).moved(*old(self)),
            from_end_kind(old(self).kind_now()) ==> res is None && final(self).at() == old(self).at(),
            closer_kind(old(self).kind_now()) ==> res is None && final(self).at() == old(self).at(),
            res is Some ==> final(self).at() > old(self).at(),
            match spec_join_kind(old(self).toks(), old(self).at()) {
                Some((k, n)) => res == Some(k) && final(self).at() == old(self).at() + n,
                None => res is None,
            },
            no_join_at(old(self).toks(), old(self).at()) ==> res is None && final(self).at() == old(self).at(),
    {
        let natural = self.kw(Keyword::Natural).is_some();
        let k = match self.kind() {
            Some(TokenKind::Keyword(k)) => k,
            _ => return None,
        };
        if k == Keyword::Inner {
            let _ = self.advance();
            self.kw(Keyword::Join)?;
            Some(JoinKind { base: JoinBase::Inner, outer: false, natural })
        } else if k == Keyword::Left || k == Keyword::Right || k == Keyword::Full {
            let _ = self.advance();
            let outer = self.kw(Keyword::Outer).is_some();
            self.kw(Keyword::Join)?;
            let base = if k == Keyword::Left {
                JoinBase::Left
            } else if k == Keyword::Right {
                JoinBase::Right
            } else {
                JoinBase::Full
            };
            Some(JoinKind { base, outer, natural })
        } else if k == Keyword::Cross {
            let _ = self.advance();
            self.kw(Keyword::Join)?;
            Some(JoinKind { base: JoinBase::Cross, outer: false, natural })
        } else if k == Keyword::Join {
            let _ = self.advance();
            Some(JoinKind { base: JoinBase::Inner, outer: false, natural })
        } else {
            None
        }
    }

    /// `ON expr` or `USING (columns)`.
    fn parse_join_constraint(&mut self) -> (res: Option<JoinConstraint>)
        requires
            old(self).wf(),
        ensures
            final(self).moved(*old(self)),
            ({
                let ts = old(self).toks();
                let p = old(self).at();
                &&& !kw_at(ts, p, Keyword::On) && !kw_at(ts, p, Keyword::Using) ==> res is None && final(self).at() == p
                &&& kw_at(ts, p, Keyword::On) && lone_literal(ts, p + 1) ==> (res matches Some(JoinConstraint::On(e))
                    && e.item == literal_expr_at(ts, p + 1)) && final(self).at() == p + 2
                &&& kw_at(ts, p, Keyword::On) && closer_kind(kind_at(ts, p + 1)) ==> res is None
                &&& kw_at(ts, p, Keyword::Using) ==> (res matches Some(c) ==> c is Using)
                &&& kw_at(ts, p, Keyword::Using) && kind_at(ts, p + 1) == Some(TokenKind::LeftParen) && ident_kind(
                    kind_at(ts, p + 2),
                ) && kind_at(ts, p + 3) == Some(TokenKind::RightParen) ==> (res matches Some(JoinConstraint::Using(l))
                    && l.items@.len() == 1 && l.items@[0].item == ts[p + 2].span) && final(self).at() == p + 4
            }),
            res is Some ==> final(self).at() > old(self).at(),
        decreases old(self).rem(), 5nat,
    {
        if self.kw(Keyword::On).is_some() {
            let s = self.pos();
            let e = self.parse_expr()?;
            return Some(JoinConstraint::On(Loc::new(self.span_from(s), e)));
        }
        if self.kw(Keyword::Using).is_some() {
            self.eat(TokenKind::LeftParen)?;
            let cols = self.list_idents();
            let _ = self.eat(TokenKind::RightParen);
            return Some(JoinConstraint::Using(cols?));
        }
        None
    }

    /// `WHERE expr` (`Empty` where no expression parses).
    fn parse_where(&mut self) -> (res: Option<Where>)
        requires
            old(self).wf(),
        ensures
            final(self).moved(*old(self)),
            kw_at(old(self).toks(), old(self).at(), Keyword::Where) && lone_literal(old(self).toks(), old(self).at() + 1)
                ==> (res matches Some(w) && w.expr.item == literal_expr_at(old(self).toks(), old(self).at() + 1))
                && final(self).at() == old(self).at() + 2,
            res is Some <==> old(self).kind_now() == Some(TokenKind::Keyword(Keyword::Where)),
            res is Some ==> final(self).at() > old(self).at(),
        decreases old(self).rem(), 5nat,
    {
        self.kw(Keyword::Where)?;
        let s = self.pos();
        let e = match self.parse_expr() {
            Some(e) => e,
            None => Expr::Empty,
        };
        Some(Where { expr: Loc::new(self.span_from(s), e) })
    }

    /// `GROUP BY items`
    fn parse_group_by(&mut self) -> (res: Option<GroupBy>)
        requires
            old(self).wf(),
        ensures
            final(self).moved(*old(self)),
            res is Some <==> kw_at(old(self).toks(), old(self).at(), Keyword::Group) && kw_at(
                old(self).toks(),
                old(self).at() + 1,
                Keyword::By,
            ),
            ({
                let ts = old(self).toks();
                let p = old(self).at();
                kw_at(ts, p, Keyword::Group) && kw_at(ts, p + 1, Keyword::By) && lone_literal(ts, p + 2) && closer_kind(
                    kind_at(ts, p + 3),
                ) ==> (res matches Some(g) && g.items.items@.len() == 1) && final(self).at() == p + 3
            }),
        decreases old(self).rem(), 5nat,
    {
        self.kw(Keyword::Group)?;
        self.kw(Keyword::By)?;
        let items = match self.list_group_by_items() {
            Some(l) => l,
            None => DelimitedList::new(),
        };
        Some(GroupBy { items })
    }

    /// `ROLLUP (exprs)`, `CUBE (exprs)`, `GROUPING SETS (sets)` or an
    /// expression.
    fn parse_group_by_item(&mut self) -> (res: Option<GroupByItem>)
        requires
            old(self).wf(),
        ensures
            final(self).moved(*old(self)),
            ({
                let ts = old(self).toks();
                let p = old(self).at();
                &&& closer_kind(kind_at(ts, p)) ==> res is None && final(self).at() == p
                &&& lone_literal(ts, p) ==> (res matches Some(GroupByItem::Expr(e)) && e.item == literal_expr_at(ts, p))
                    && final(self).at() == p + 1
            }),
            res is Some ==> final(self).at() > old(self).at(),
        decreases old(self).rem(), 11nat,
    {
        if self.kw(Keyword::Rollup).is_some() {
            self.eat(TokenKind::LeftParen)?;
            let exprs = self.list_exprs();
            let _ = self.eat(TokenKind::RightParen);
            return Some(GroupByItem::Rollup(exprs?.items));
        }
        if self.kw(Keyword::Cube).is_some() {
            self.eat(TokenKind::LeftParen)?;
            let exprs = self.list_exprs();
            let _ = self.eat(TokenKind::RightParen);
            return Some(GroupByItem::Cube(exprs?.items));
        }
        if self.kw(Keyword::Grouping).is_some() && self.kw(Keyword::Sets).is_some() {
            self.eat(TokenKind::LeftParen)?;
            let sets = self.list_grouping_sets();
            let _ = self.eat(TokenKind::RightParen);
            return Some(GroupByItem::GroupingSets(sets?.items));
        }
        let s = self.pos();
        let e = self.parse_expr()?;
        Some(GroupByItem::Expr(Loc::new(self.span_from(s), e)))
    }

    /// `()`, `(exprs)` or an expression.
    fn parse_grouping_set(&mut self) -> (res: Option<GroupingSet>)
        requires
            old(self).wf(),
        ensures
            final(self).moved(*old(self)),
            ({
                let ts = old(self).toks();
                let p = old(self).at();
                &&& closer_kind(kind_at(ts, p)) ==> res is None && final(self).at() == p
                &&& kind_at(ts, p) == Some(TokenKind::LeftParen) && kind_at(ts, p + 1) == Some(TokenKind::RightParen)
                    ==> (res matches Some(GroupingSet::Exprs(v)) && v@.len() == 0) && final(self).at() == p + 2
                &&& lone_literal(ts, p) ==> (res matches Some(GroupingSet::Expr(e)) && e.item == literal_expr_at(ts, p))
                    && final(self).at() == p + 1
            }),
            res is Some ==> final(self).at() > old(self).at(),
        decreases old(self).rem(), 11nat,
    {
        let cp = self.pos;
        if self.eat(TokenKind::LeftParen).is_some() && self.eat(TokenKind::RightParen).is_some() {
            return Some(GroupingSet::Exprs(Vec::new()));
        }
        self.pos = cp;
        if self.eat(TokenKind::LeftParen).is_some() {
            let exprs = self.list_exprs();
            let _ = self.eat(TokenKind::RightParen);
            if let Some(l) = exprs {
                return Some(GroupingSet::Exprs(l.items));
            }
        }
        self.pos = cp;
        let s = self.pos();
        let e = self.parse_expr()?;
        Some(GroupingSet::Expr(Loc::new(self.span_from(s), e)))
    }

    /// `HAVING expr` (`Empty` where no expression parses).
    fn parse_having(&mut self) -> (res: Option<Loc<Expr>>)
        requires
            old(self).wf(),
        ensures
            final(self).moved(*old(self)),
            res is Some <==> old(self).kind_now() == Some(TokenKind::Keyword(Keyword::Having)),
            res is None ==> final(self).at() == old(self).at(),
            ({
                let ts = old(self).toks();
                let p = old(self).at();
                &&& kw_at(ts, p, Keyword::Having) && lone_literal(ts, p + 1) ==> (res matches Some(e) && e.item
                    == literal_expr_at(ts, p + 1)) && final(self).at() == p + 2
                &&& kw_at(ts, p, Keyword::Having) && closer_kind(kind_at(ts, p + 1)) ==> (res matches Some(e)
                    && e.item is Empty) && final(self).at() == p + 1
            }),
        decreases old(self).rem(), 5nat,
    {
        self.kw(Keyword::Having)?;
        let s = self.pos();
        let e = match self.parse_expr() {
            Some(e) => e,
            None => Expr::Empty,
        };
        Some(Loc::new(self.span_from(s), e))
    }

    /// `WINDOW name AS (spec), ...`
    fn parse_window(&mut self) -> (res: Option<Window>)
        requires
            old(self).wf(),
        ensures
            final(self).moved(*old(self)),
            ({
                let ts = old(self).toks();
                let p = old(self).at();
                &&& res is Some ==> kw_at(ts, p, Keyword::Window)
                &&& !kw_at(ts, p, Keyword::Window) ==> res is None && final(self).at() == p
                &&& res matches Some(w) ==> w.windows@.len() >= 1
                &&& kw_at(ts, p, Keyword::Window) && ident_kind(kind_at(ts, p + 1)) && kw_at(ts, p + 2, Keyword::As)
                    && kind_at(ts, p + 3) == Some(TokenKind::LeftParen) && kind_at(ts, p + 4) == Some(TokenKind::RightParen)
                    && kind_at(ts, p + 5) != Some(TokenKind::Comma) ==> (res matches Some(w) && w.windows@.len() == 1
                    && w.windows@[0].item.name == ts[p + 1].span) && final(self).at() == p + 5
            }),
        decreases old(self).rem(), 5nat,
    {
        let ghost p0 = self.at();
        self.kw(Keyword::Window)?;
        let mut windows: Vec<Loc<WindowDef>> = Vec::new();
        loop
            invariant_except_break
                windows@.len() == 0 ==> self.at() == p0 + 1,
                ({
                    let ts = old(self).toks();
                    ident_kind(kind_at(ts, p0 + 1)) && kw_at(ts, p0 + 2, Keyword::As) && kind_at(ts, p0 + 3) == Some(
                        TokenKind::LeftParen,
                    ) && kind_at(ts, p0 + 4) == Some(TokenKind::RightParen) && kind_at(ts, p0 + 5) != Some(TokenKind::Comma)
                        ==> windows@.len() == 0
                }),
            invariant
                kw_at(old(self).toks(), p0, Keyword::Window),
                self.moved(*old(self)),
                self.at() > p0,
                p0 == old(self).at(),
            ensures
                self.moved(*old(self)),
                self.at() > p0,
                windows@.len() >= 1,
                ({
                    let ts = old(self).toks();
                    ident_kind(kind_at(ts, p0 + 1)) && kw_at(ts, p0 + 2, Keyword::As) && kind_at(ts, p0 + 3) == Some(
                        TokenKind::LeftParen,
                    ) && kind_at(ts, p0 + 4) == Some(TokenKind::RightParen) && kind_at(ts, p0 + 5) != Some(TokenKind::Comma)
                        ==> windows@.len() == 1 && windows@[0].item.name == ts[p0 + 1].span && self.at() == p0 + 5
                }),
            decreases self.rem(),
        {
            let name = self.ident()?;
            self.kw(Keyword::As)?;
            self.eat(TokenKind::LeftParen)?;
            let s = self.pos();
            let sp = self.parse_window_spec();
            let spec = Loc::new(self.span_from(s), sp);
            let _ = self.eat(TokenKind::RightParen);
            windows.push(Loc::new(name, WindowDef { name, spec }));
            if self.eat(TokenKind::Comma).is_none() {
                break;
            }
        }
        Some(Window { windows })
    }

    /// `[PARTITION BY exprs] [ORDER BY ..] [frame]`; every part may be
    /// missing.
    #[verifier::rlimit(40)]
    fn parse_window_spec(&mut self) -> (res: WindowSpec)
        requires
            old(self).wf(),
        ensures
            final(self).moved(*old(self)),
            ({
                let ts = old(self).toks();
                let p = old(self).at();
                &&& res.partition_by is Some ==> kw_at(ts, p, Keyword::Partition) && kw_at(ts, p + 1, Keyword::By)
                &&& closer_kind(kind_at(ts, p)) ==> res.partition_by is None && res.order_by is None && res.frame is None
                    && final(self).at() == p
                &&& kw_at(ts, p, Keyword::Partition) && kw_at(ts, p + 1, Keyword::By) && lone_literal(ts, p + 2)
                    && closer_kind(kind_at(ts, p + 3)) ==> (res.partition_by matches Some(l) && l.items@.len() == 1
                    && l.items@[0].item == literal_expr_at(ts, p + 2)) && res.order_by is None && res.frame is None
                    && final(self).at() == p + 3
            }),
        decreases old(self).rem(), 15nat,
    {
        let partition_by = if self.kw(Keyword::Partition).is_some() && self.kw(Keyword::By).is_some() {
            self.list_exprs()
        } else {
            None
        };
        let cp = self.pos;
        let s = self.pos();
        let order_by = match self.parse_order_by() {
            Some(o) => Some(Loc::new(self.span_from(s), o)),
            None => {
                self.pos = cp;
                None
            },
        };
        let cp = self.pos;
        let s = self.pos();
        let frame = match self.parse_window_frame() {
            Some(f) => Some(Box::new(Loc::new(self.span_from(s), f))),
            None => {
                self.pos = cp;
                None
            },
        };
        WindowSpec { partition_by, order_by, frame }
    }

    /// `ROWS|RANGE BETWEEN bound [AND] bound`
    fn parse_window_frame(&mut self) -> (res: Option<WindowFrame>)
        requires
            old(self).wf(),
        ensures
            final(self).moved(*old(self)),
            ({
                let ts = old(self).toks();
                let p = old(self).at();
                &&& res is Some ==> (kw_at(ts, p, Keyword::Rows) || kw_at(ts, p, Keyword::Range)) && op_at(ts, p + 1, OpTag::Between)
                &&& res matches Some(f) ==> (f.unit is Rows <==> kw_at(ts, p, Keyword::Rows)) && f.end is Some
                &&& !(kw_at(ts, p, Keyword::Rows) || kw_at(ts, p, Keyword::Range)) ==> res is None && final(self).at() == p
                &&& (kw_at(ts, p, Keyword::Rows) || kw_at(ts, p, Keyword::Range)) && op_at(ts, p + 1, OpTag::Between) && kw_at(
                    ts,
                    p + 2,
                    Keyword::Unbounded,
                ) && kw_at(ts, p + 3, Keyword::Preceding) && op_at(ts, p + 4, OpTag::And) && kw_at(ts, p + 5, Keyword::Current)
                    && kw_at(ts, p + 6, Keyword::Row) ==> (res matches Some(f) && f.start.item == FrameBound::UnboundedPreceding
                    && (f.end matches Some(e) && e.item == FrameBound::CurrentRow)) && final(self).at() == p + 7
            }),
        decreases old(self).rem(), 14nat,
    {
        let unit = match self.kind() {
            Some(TokenKind::Keyword(Keyword::Rows)) => {
                let _ = self.advance();
                FrameUnit::Rows
            },
            Some(TokenKind::Keyword(Keyword::Range)) => {
                let _ = self.advance();
                FrameUnit::Range
            },
            _ => return None,
        };
        self.op(OpTag::Between)?;
        let s = self.pos();
        let b = self.parse_frame_bound()?;
        let start = Box::new(Loc::new(self.span_from(s), b));
        let _ = self.op(OpTag::And);
        let s = self.pos();
        let b = self.parse_frame_bound()?;
        let end = Some(Box::new(Loc::new(self.span_from(s), b)));
        Some(WindowFrame { unit, start, end })
    }

    /// `UNBOUNDED PRECEDING|FOLLOWING`, `CURRENT ROW`, or
    /// `expr PRECEDING|FOLLOWING`.
    fn parse_frame_bound(&mut self) -> (res: Option<FrameBound>)
        requires
            old(self).wf(),
        ensures
            final(self).moved(*old(self)),
            ({
                let ts = old(self).toks();
                let p = old(self).at();
                &&& kw_at(ts, p, Keyword::Unbounded) && kw_at(ts, p + 1, Keyword::Preceding) ==> res == Some(
                    FrameBound::UnboundedPreceding,
                ) && final(self).at() == p + 2
                &&& kw_at(ts, p, Keyword::Unbounded) && kw_at(ts, p + 1, Keyword::Following) ==> res == Some(
                    FrameBound::UnboundedFollowing,
                ) && final(self).at() == p + 2
                &&& kw_at(ts, p, Keyword::Unbounded) && !kw_at(ts, p + 1, Keyword::Preceding) && !kw_at(ts, p + 1, Keyword::Following) ==> res is None
                &&& kw_at(ts, p, Keyword::Current) ==> (res is Some <==> kw_at(ts, p + 1, Keyword::Row))
                &&& kw_at(ts, p, Keyword::Current) && kw_at(ts, p + 1, Keyword::Row) ==> res == Some(FrameBound::CurrentRow)
                    && final(self).at() == p + 2
                &&& closer_kind(kind_at(ts, p)) ==> res is None
                &&& lone_literal(ts, p) && kw_at(ts, p + 1, Keyword::Preceding) ==> (res matches Some(FrameBound::Preceding(e))
                    && e.item == literal_expr_at(ts, p))
                &&& lone_literal(ts, p) && kw_at(ts, p + 1, Keyword::Following) ==> (res matches Some(FrameBound::Following(e))
                    && e.item == literal_expr_at(ts, p))
            }),
        decreases old(self).rem(), 11nat,
    {
        match self.kind() {
            Some(TokenKind::Keyword(Keyword::Unbounded)) => {
                let _ = self.advance();
                if self.kw(Keyword::Preceding).is_some() {
                    Some(FrameBound::UnboundedPreceding)
                } else {
                    self.kw(Keyword::Following)?;
                    Some(FrameBound::UnboundedFollowing)
                }
            },
            Some(TokenKind::Keyword(Keyword::Current)) => {
                let _ = self.advance();
                self.kw(Keyword::Row)?;
                Some(FrameBound::CurrentRow)
            },
            None => None,
            _ => {
                let s = self.pos();
                let e = self.parse_expr()?;
                let expr = Box::new(Loc::new(self.span_from(s), e));
                if self.kw(Keyword::Preceding).is_some() {
                    Some(FrameBound::Preceding(expr))
                } else {
                    self.kw(Keyword::Following)?;
                    Some(FrameBound::Following(expr))
                }
            },
        }
    }

    /// `ORDER BY`, `LIMIT`/`FETCH FIRST` and `OFFSET`, each at most once, in
    /// any order.
    #[verifier::rlimit(40)]
    fn parse_query_suffix(&mut self) -> (res: Option<QuerySuffix>)
        requires
            old(self).wf(),
        ensures
            final(self).moved(*old(self)),
            ({
                let ts = old(self).toks();
                let p = old(self).at();
                &&& res matches Some(q) ==> q.order_by is Some || q.limit is Some || q.offset is Some
                &&& !(kw_at(ts, p, Keyword::Order) || kw_at(ts, p, Keyword::Limit) || kw_at(ts, p, Keyword::Fetch)
                    || kw_at(ts, p, Keyword::Offset)) ==> res is None && final(self).at() == p
                &&& kw_at(ts, p, Keyword::Limit) && lone_literal(ts, p + 1) && closer_kind(kind_at(ts, p + 2)) ==> (
                res matches Some(q) && q.limit is Some && q.order_by is None && q.offset is None) && final(self).at()
                    == p + 2
                &&& crate::parse::parser::tail_shape_at(ts, p) ==> (res matches Some(t) && tail_is(t, ts, p)) && final(self).at()
                    == limit_end(ts, order_end(ts, p))
            }),
        decreases old(self).rem(), 16nat,
    {
        let ghost p0 = self.at();
        let mut order_by: Option<Loc<OrderBy>> = None;
        let mut limit: Option<Loc<Limit>> = None;
        let mut offset: Option<Loc<Offset>> = None;
        loop
            invariant_except_break
                ({
                    let ts = old(self).toks();
                    kw_at(ts, p0, Keyword::Limit) && lone_literal(ts, p0 + 1) && closer_kind(kind_at(ts, p0 + 2))
                        ==> order_by is None && offset is None && (self.at() == p0 && limit is None || self.at() == p0 + 2
                        && limit is Some)
                }),
            invariant
                self.moved(*old(self)),
                p0 == old(self).at(),
                ({
                    let ts = old(self).toks();
                    !(kw_at(ts, p0, Keyword::Order) || kw_at(ts, p0, Keyword::Limit) || kw_at(ts, p0, Keyword::Fetch)
                        || kw_at(ts, p0, Keyword::Offset)) ==> self.at() == p0 && order_by is None && limit is None
                        && offset is None
                }),
                ({
                    let ts = old(self).toks();
                    let o = order_end(ts, p0);
                    crate::parse::parser::tail_shape_at(ts, p0) ==> offset is None && ((order_by is None && limit is None && self.at() == p0) || (
                    kw_at(ts, p0, Keyword::Order) && (order_by matches Some(ob) && order_is(ob.item, ts, p0)) && limit is None
                        && self.at() == o) || ((kw_at(ts, p0, Keyword::Order) ==> (order_by matches Some(ob) && order_is(
                        ob.item,
                        ts,
                        p0,
                    ))) && (!kw_at(ts, p0, Keyword::Order) ==> order_by is None) && kw_at(ts, o, Keyword::Limit) && (
                    limit matches Some(li) && li.item.style == LimitKind::Limit && li.item.count.item == literal_expr_at(ts, o + 1))
                        && self.at() == o + 2))
                }),
            ensures
                ({
                    let ts = old(self).toks();
                    crate::parse::parser::tail_shape_at(ts, p0) ==> (order_by is Some || limit is Some || offset is Some) && tail_is(
                        QuerySuffix { order_by, limit, offset },
                        ts,
                        p0,
                    ) && self.at() == limit_end(ts, order_end(ts, p0))
                }),
                self.moved(*old(self)),
                ({
                    let ts = old(self).toks();
                    &&& !(kw_at(ts, p0, Keyword::Order) || kw_at(ts, p0, Keyword::Limit) || kw_at(ts, p0, Keyword::Fetch)
                        || kw_at(ts, p0, Keyword::Offset)) ==> self.at() == p0 && order_by is None && limit is None
                        && offset is None
                    &&& kw_at(ts, p0, Keyword::Limit) && lone_literal(ts, p0 + 1) && closer_kind(kind_at(ts, p0 + 2))
                        ==> order_by is None && offset is None && self.at() == p0 + 2 && limit is Some
                }),
            decreases self.rem(),
        {
            if order_by.is_none() {
                let cp = self.pos;
                let s = self.pos();
                match self.parse_order_by() {
                    Some(o) => {
                        order_by = Some(Loc::new(self.span_from(s), o));
                        continue;
                    },
                    None => {
                        self.pos = cp;
                    },
                }
            }
            if limit.is_none() {
                let cp = self.pos;
                let s = self.pos();
                match self.parse_limit() {
                    Some(l) => {
                        limit = Some(Loc::new(self.span_from(s), l));
                        continue;
                    },
                    None => {
                        self.pos = cp;
                    },
                }
            }
            if offset.is_none() {
                let cp = self.pos;
                let s = self.pos();
                match self.parse_offset() {
                    Some(o) => {
                        offset = Some(Loc::new(self.span_from(s), o));
                        continue;
                    },
                    None => {
                        self.pos = cp;
                    },
                }
            }
            break;
        }
        if order_by.is_some() || limit.is_some() || offset.is_some() {
            Some(QuerySuffix { order_by, limit, offset })
        } else {
            None
        }
    }

    fn parse_order_by(&mut self) -> (res: Option<OrderBy>)
        requires
            old(self).wf(),
        ensures
            final(self).moved(*old(self)),
            res matches Some(o) ==> o.items.items@.len() >= 1,
            ({
                let ts = old(self).toks();
                let p = old(self).at();
                &&& res is Some ==> kw_at(ts, p, Keyword::Order) && kw_at(ts, p + 1, Keyword::By)
                &&& !kw_at(ts, p, Keyword::Order) ==> res is None && final(self).at() == p
                &&& kw_at(ts, p, Keyword::Order) && kw_at(ts, p + 1, Keyword::By) && lone_literal(ts, p + 2) && closer_kind(
                    kind_at(ts, p + 3),
                ) ==> (res matches Some(o) && o.items.items@.len() == 1 && o.items.items@[0].item.expr.item
                    == literal_expr_at(ts, p + 2)) && final(self).at() == p + 3
                &&& kw_at(ts, p, Keyword::Order) && order_ok(ts, p) && !kw_at(ts, order_end(ts, p), Keyword::Nulls) ==> (
                res matches Some(o) && order_is(o, ts, p)) && final(self).at() == order_end(ts, p)
            }),
            res is Some ==> final(self).at() > old(self).at(),
        decreases old(self).rem(), 14nat,
    {
        self.kw(Keyword::Order)?;
        self.kw(Keyword::By)?;
        let items = self.list_order_by_items()?;
        Some(OrderBy { items })
    }

    /// `expr [ASC|DESC] [NULLS FIRST|LAST]`
    fn parse_order_by_item(&mut self) -> (res: Option<OrderByItem>)
        requires
            old(self).wf(),
        ensures
            final(self).moved(*old(self)),
            ({
                let ts = old(self).toks();
                let p = old(self).at();
                &&& closer_kind(kind_at(ts, p)) ==> res is None && final(self).at() == p
                &&& lone_literal(ts, p) ==> (res matches Some(i) && i.expr.item == literal_expr_at(ts, p) && (
                kw_at(ts, p + 1, Keyword::Asc) ==> i.direction == Some(SortDirection::Asc)) && (kw_at(
                    ts,
                    p + 1,
                    Keyword::Desc,
                ) ==> i.direction == Some(SortDirection::Desc)) && (!kw_at(ts, p + 1, Keyword::Asc) && !kw_at(
                    ts,
                    p + 1,
                    Keyword::Desc,
                ) ==> i.direction is None))
                &&& lone_literal(ts, p) && closer_kind(kind_at(ts, p + 1)) ==> final(self).at() == p + 1
                &&& ({
                    let d = p + 1 + (if direction_at(ts, p + 1) is Some { 1int } else { 0int });
                    simple_item_at(ts, p) && (lone_literal_at(ts, p) ==> lone_literal(ts, p)) && (!lone_literal_at(ts, p)
                        ==> name_before(ts, p, 0)) && !kw_at(ts, d, Keyword::Nulls) ==> (res matches Some(i) && simple_item_is(
                        i.expr.item,
                        ts,
                        p,
                    ) && i.direction == direction_at(ts, p + 1) && i.nulls is None) && final(self).at() == d
                })
            }),
            res is Some ==> final(self).at() > old(self).at(),
        decreases old(self).rem(), 11nat,
    {
        let s = self.pos();
        let e = self.parse_expr()?;
        let expr = Loc::new(self.span_from(s), e);
        let direction = if self.kw(Keyword::Asc).is_some() {
            Some(SortDirection::Asc)
        } else if self.kw(Keyword::Desc).is_some() {
            Some(SortDirection::Desc)
        } else {
            None
        };
        let nulls = if self.kw(Keyword::Nulls).is_some() {
            if self.kw(Keyword::First).is_some() {
                Some(NullsOrder::First)
            } else if self.kw(Keyword::Last).is_some() {
                Some(NullsOrder::Last)
            } else {
                None
            }
        } else {
            None
        };
        Some(OrderByItem { expr, direction, nulls })
    }

    /// `FETCH FIRST n [ROWS] [ONLY]` or `LIMIT n`.
    fn parse_limit(&mut self) -> (res: Option<Limit>)
        requires
            old(self).wf(),
        ensures
            final(self).moved(*old(self)),
            ({
                let ts = old(self).toks();
                let p = old(self).at();
                &&& res is Some ==> kw_at(ts, p, Keyword::Limit) || kw_at(ts, p, Keyword::Fetch)
                &&& !kw_at(ts, p, Keyword::Limit) && !kw_at(ts, p, Keyword::Fetch) ==> res is None && final(self).at() == p
                &&& kw_at(ts, p, Keyword::Limit) && lone_literal(ts, p + 1) ==> (res matches Some(l) && l.style is Limit
                    && l.count.item == literal_expr_at(ts, p + 1)) && final(self).at() == p + 2
                &&& kw_at(ts, p, Keyword::Fetch) && kw_at(ts, p + 1, Keyword::First) && lone_literal(ts, p + 2) ==> (
                res matches Some(l) && l.style is FetchFirst && l.count.item == literal_expr_at(ts, p + 2))
            }),
            res is Some ==> final(self).at() > old(self).at(),
        decreases old(self).rem(), 14nat,
    {
        if self.kw(Keyword::Fetch).is_some() && self.kw(Keyword::First).is_some() {
            let s = self.pos();
            let e = self.parse_expr()?;
            let count = Loc::new(self.span_from(s), e);
            let _ = self.kw(Keyword::Rows);
            let _ = self.kw(Keyword::Only);
            return Some(Limit { count, style: LimitKind::FetchFirst });
        }
        self.kw(Keyword::Limit)?;
        let s = self.pos();
        let e = self.parse_expr()?;
        Some(Limit { count: Loc::new(self.span_from(s), e), style: LimitKind::Limit })
    }

    /// `OFFSET n [ROWS]`
    fn parse_offset(&mut self) -> (res: Option<Offset>)
        requires
            old(self).wf(),
        ensures
            final(self).moved(*old(self)),
            ({
                let ts = old(self).toks();
                let p = old(self).at();
                &&& res is Some ==> kw_at(ts, p, Keyword::Offset)
                &&& !kw_at(ts, p, Keyword::Offset) ==> res is None && final(self).at() == p
                &&& kw_at(ts, p, Keyword::Offset) && lone_literal(ts, p + 1) ==> (res matches Some(o) && o.count.item
                    == literal_expr_at(ts, p + 1) && o.rows_keyword == kw_at(ts, p + 2, Keyword::Rows))
                    && final(self).at() == (if kw_at(ts, p + 2, Keyword::Rows) { p + 3 } else { p + 2 })
            }),
            res is Some ==> final(self).at() > old(self).at(),
        decreases old(self).rem(), 14nat,
    {
        self.kw(Keyword::Offset)?;
        let s = self.pos();
        let e = self.parse_expr()?;
        let count = Loc::new(self.span_from(s), e);
        let rows_keyword = self.kw(Keyword::Rows).is_some();
        Some(Offset { count, rows_keyword })
    }

    /// A dotted name.
    fn parse_qualified_name(&mut self) -> (res: Option<QualifiedName>)
        requires
            old(self).wf(),
        ensures
            final(self).moved(*old(self)),
            res is Some ==> final(self).at() > old(self).at(),
            res is Some <==> name_part_kind(old(self).kind_now()),
            res is None ==> final(self).at() == old(self).at(),
            name_part_kind(old(self).kind_now()) && kind_at(old(self).toks(), old(self).at() + 1) != Some(
                TokenKind::Dot,
            ) ==> (res matches Some(q) && q.parts.items@.len() == 1) && final(self).at() == old(self).at() + 1,
            res matches Some(q) ==> q.parts.items@[0].item == name_part_at(old(self).toks(), old(self).at()),
            res matches Some(q) ==> name_parts_at(q.parts, old(self).toks(), old(self).at()) && final(self).at()
                == name_end(old(self).toks(), old(self).at() + 1),
    {
        let parts = self.list_name_parts()?;
        Some(QualifiedName { parts })
    }

    /// An identifier, `*`, or a keyword that is not reserved.
    fn parse_name_part(&mut self) -> (res: Option<NamePart>)
        requires
            old(self).wf(),
        ensures
            final(self).moved(*old(self)),
            res is Some ==> final(self).at() == old(self).at() + 1,
            res is None ==> final(self).at() == old(self).at(),
            res is Some <==> name_part_kind(old(self).kind_now()),
            res matches Some(np) ==> np == name_part_at(old(self).toks(), old(self).at()),
    {
        if let Some(id) = self.ident() {
            return Some(NamePart::Ident(id));
        }
        if self.op(OpTag::Mul).is_some() {
            return Some(NamePart::Star);
        }
        if let Some(TokenKind::Keyword(kw)) = self.kind() {
            if !is_reserved(kw) {
                let sp = self.span();
                let _ = self.advance();
                return Some(NamePart::Ident(sp));
            }
        }
        None
    }

    /// An identifier, quoted or not: its span.
    fn ident(&mut self) -> (res: Option<Identifier>)
        requires
            old(self).wf(),
        ensures
            final(self).moved(*old(self)),
            res is Some <==> (old(self).kind_now() matches Some(TokenKind::Identifier)
                || old(self).kind_now() matches Some(TokenKind::IdentifierQuoted(_))),
            res is Some ==> final(self).at() == old(self).at() + 1,
            res is None ==> final(self).at() == old(self).at(),
            res matches Some(sp) ==> sp == old(self).toks()[old(self).at()].span,
    {
        match self.kind() {
            Some(TokenKind::Identifier) | Some(TokenKind::IdentifierQuoted(_)) => {
                let sp = self.span();
                let _ = self.advance();
                Some(sp)
            },
            _ => None,
        }
    }

    /// An identifier or any keyword: its span.
    fn ident_or_keyword(&mut self) -> (res: Option<Identifier>)
        requires
            old(self).wf(),
        ensures
            final(self).moved(*old(self)),
            res is Some <==> word_kind(old(self).kind_now()),
            res is Some ==> final(self).at() == old(self).at() + 1,
            res is None ==> final(self).at() == old(self).at(),
            res matches Some(sp) ==> sp == old(self).toks()[old(self).at()].span,
    {
        match self.kind() {
            Some(TokenKind::Identifier) | Some(TokenKind::IdentifierQuoted(_)) | Some(
                TokenKind::Keyword(_),
            ) => {
                let sp = self.span();
                let _ = self.advance();
                Some(sp)
            },
            _ => None,
        }
    }

    /// `AS name`, or a bare name.
    fn alias(&mut self) -> (res: Option<Loc<Identifier>>)
        requires
            old(self).wf(),
        ensures
            final(self).moved(*old(self)),
            ({
                let ts = old(self).toks();
                let p = old(self).at();
                &&& kw_at(ts, p, Keyword::As) ==> (res is Some <==> ident_kind(kind_at(ts, p + 1)))
                &&& kw_at(ts, p, Keyword::As) && ident_kind(kind_at(ts, p + 1)) ==> (res matches Some(a) && a.item
                    == ts[p + 1].span) && final(self).at() == p + 2
                &&& ident_kind(kind_at(ts, p)) ==> (res matches Some(a) && a.item == ts[p].span) && final(self).at()
                    == p + 1
                &&& !kw_at(ts, p, Keyword::As) && !ident_kind(kind_at(ts, p)) ==> res is None && final(self).at() == p
            }),
    {
        if self.kw(Keyword::As).is_some() {
            let s = self.pos();
            let id = self.ident()?;
            return Some(Loc::new(self.span_from(s), id));
        }
        match self.kind() {
            Some(TokenKind::Identifier) | Some(TokenKind::IdentifierQuoted(_)) => {
                let s = self.pos();
                let id = self.ident()?;
                Some(Loc::new(self.span_from(s), id))
            },
            _ => None,
        }
    }
}

/// Whether the keyword is reserved: it cannot stand for a name.
fn is_reserved(kw: Keyword) -> (res: bool)
    ensures
        res == spec_is_reserved(kw),
{
    match kw {
        Keyword::Select | Keyword::From | Keyword::Where | Keyword::Group | Keyword::Having
        | Keyword::Order | Keyword::Limit | Keyword::Offset | Keyword::Join | Keyword::Inner
        | Keyword::Left | Keyword::Right | Keyword::Full | Keyword::Cross | Keyword::On
        | Keyword::Using | Keyword::Union | Keyword::Intersect | Keyword::Except | Keyword::With
        | Keyword::As | Keyword::By | Keyword::Distinct | Keyword::All => true,
        _ => false,
    }
}

} // verus!
