//! Parsing token streams into statements.
use vstd::prelude::*;

use crate::ast;
use crate::lex::tape::kind_at;
use crate::lex::{Keyword, Token, TokenKind, TokenTape};
use crate::span::Loc;

mod expr;
pub mod number;
pub mod v2;
mod parser;
pub mod v3;

pub use expr::{is_literal_kind, literal_token, spec_is_prefix_op, spec_prefix_binding_power};
pub use parser::{
    dml_read_at, ident_kind, is_partial_at, is_simple_select, join_select_at, join_select_query, list_select_at, list_select_query, cte_select_at, cte_select_query, select_end, tail_select_at, tail_select_query, union_select_at, union_select_query, simple_select_at, simple_select_query, spec_current_pos,
    spec_is_reserved, spec_join_kind, spec_set_op, statement_start, Parser,
};

verus! {

/// A query with no `WITH` whose body starts with a select.
pub open spec fn is_select_query(s: ast::Statement) -> bool {
    s matches ast::Statement::Query(q) && q.item.with is None && (q.item.body matches Some(b)
        && b.item.left.item is Select)
}

/// What the statement parser promises of its result for a statement that
/// starts at `p`: a result, partial exactly when the input there is too short
/// to tell, starting where the token at `p` starts; `INSERT`, `UPDATE` and
/// `DELETE` statements where those read, a query otherwise; a query whose
/// body is a select where `SELECT` stands at `p`; and the select itself where
/// it is one of the shapes stated.
pub open spec fn statement_read_at(ts: Seq<Token>, p: int, res: Option<Loc<ast::Statement>>) -> bool {
    &&& res is Some
    &&& (res->0.item is Partial) == is_partial_at(ts, p)
    &&& res->0.span.start == spec_current_pos(ts, p)
    &&& dml_read_at(ts, p, res->0.item)
    &&& kind_at(ts, p) == Some(TokenKind::Keyword(Keyword::Select)) ==> is_select_query(res->0.item)
    &&& simple_select_at(ts, p) ==> (res matches Some(s) && s.item matches ast::Statement::Query(q)
        && simple_select_query(q.item, ts, p))
    &&& join_select_at(ts, p) ==> (res matches Some(s) && s.item matches ast::Statement::Query(q)
        && join_select_query(q.item, ts, p))
    &&& list_select_at(ts, p) ==> (res matches Some(s) && s.item matches ast::Statement::Query(q)
        && list_select_query(q.item, ts, p))
    &&& union_select_at(ts, p) ==> (res matches Some(s) && s.item matches ast::Statement::Query(q)
        && union_select_query(q.item, ts, p))
    &&& tail_select_at(ts, p) ==> (res matches Some(s) && s.item matches ast::Statement::Query(q)
        && tail_select_query(q.item, ts, p))
    &&& cte_select_at(ts, p) ==> (res matches Some(s) && s.item matches ast::Statement::Query(q)
        && cte_select_query(q.item, ts, p))
}

/// Parse one statement from the tape's position.
pub fn parse_statement<'a>(tape: TokenTape<'a>) -> (res: Option<Loc<ast::Statement>>)
    requires
        tape.wf(),
    ensures
        statement_read_at(tape.tokens@, statement_start(tape.tokens@, tape.pos as int), res),
{
    let mut parser = Parser::new(tape);
    parser.parse_statement()
}

/// The tape moved to the start of the statement the cursor is in: past the
/// last semicolon before the cursor.
pub fn tape_at_cursor<'a>(tape: TokenTape<'a>, cursor: usize) -> (res: TokenTape<'a>)
    requires
        tape.wf(),
    ensures
        res.wf(),
        res.tokens@ == tape.tokens@,
        res.pos == last_semicolon_end(tape.tokens@, cursor as int),
{
    let mut tape = tape;
    advance_to_statement_start(&mut tape, cursor);
    tape
}

/// Parse the statement that the cursor is in: [`parse_statement`] on
/// [`tape_at_cursor`], so the result is what that function gives and
/// promises for a statement starting there.
pub fn parse_statement_at_cursor<'a>(tape: TokenTape<'a>, cursor: usize) -> (res: Option<
    Loc<ast::Statement>,
>)
    requires
        tape.wf(),
    ensures
        statement_read_at(
            tape.tokens@,
            statement_start(tape.tokens@, last_semicolon_end(tape.tokens@, cursor as int)),
            res,
        ),
{
    parse_statement(tape_at_cursor(tape, cursor))
}

/// The position past the last semicolon among the tokens that come before
/// the first token starting at or after `cursor` (0 where there is none).
pub open spec fn last_semicolon_end(ts: Seq<Token>, cursor: int) -> int {
    last_semicolon_end_in(ts, cursor, first_at_or_after(ts, cursor, 0))
}

/// The index of the first token at or after `i` that starts at or after
/// `cursor` (the length where there is none).
pub open spec fn first_at_or_after(ts: Seq<Token>, cursor: int, i: int) -> int
    decreases ts.len() - i,
{
    if i >= ts.len() || ts[i].span.start >= cursor {
        if i >= ts.len() { ts.len() as int } else { i }
    } else {
        first_at_or_after(ts, cursor, i + 1)
    }
}

/// One past the index of the last semicolon before index `n` (0 where there
/// is none).
pub open spec fn last_semicolon_end_in(ts: Seq<Token>, cursor: int, n: int) -> int
    decreases n,
{
    if n <= 0 {
        0
    } else if ts[n - 1].kind == TokenKind::Semicolon {
        n
    } else {
        last_semicolon_end_in(ts, cursor, n - 1)
    }
}

/// Move the tape to the start of the statement the cursor is in.
fn advance_to_statement_start(tape: &mut TokenTape, cursor: usize)
    requires
        old(tape).wf(),
    ensures
        final(tape).wf(),
        final(tape).tokens@ == old(tape).tokens@,
        final(tape).pos == last_semicolon_end(old(tape).tokens@, cursor as int),
{
    let ghost ts = tape.tokens@;
    let mut last: usize = 0;
    let mut idx: usize = 0;
    while idx < tape.tokens.len()
        invariant
            tape.tokens@ == ts,
            idx <= ts.len(),
            last <= idx,
            old(tape).tokens@ == ts,
            first_at_or_after(ts, cursor as int, 0) == first_at_or_after(ts, cursor as int, idx as int),
            forall|j: int| 0 <= j < idx ==> (#[trigger] ts[j]).span.start < cursor,
            last == last_semicolon_end_in(ts, cursor as int, idx as int),
        ensures
            first_at_or_after(ts, cursor as int, idx as int) == idx as int,
            last == last_semicolon_end_in(ts, cursor as int, idx as int),
        decreases ts.len() - idx,
    {
        let token = &tape.tokens[idx];
        if token.span.start >= cursor {
            break;
        }
        if token.kind == TokenKind::Semicolon {
            last = idx + 1;
        }
        idx += 1;
    }
    tape.pos = last;
}

} // verus!
