//! Parsing one statement from a token slice and a dialect, with the fuller
//! grammar of [`WinnowParser`].
use vstd::prelude::*;

use crate::ast::Statement;
use crate::dialect::DialectSpec;
use crate::lex::tape::kind_at;
use crate::lex::{Keyword, Token, TokenKind};
use crate::parse::is_select_query;
use crate::parse::{
    cte_select_at, cte_select_query, join_select_at, join_select_query, list_select_at, list_select_query, simple_select_at, simple_select_query,
    tail_select_at, tail_select_query, union_select_at, union_select_query,
};
use crate::parse::v2::{
    dml_keyword_at, insert_ok_at, is_partial_from, update_ok_at, is_simple_delete, is_simple_insert, is_simple_update, name_part_kind, simple_insert_at,
    simple_delete_at, simple_update_at, skip_semicolons, spec_pos, WinnowParser,
};
use crate::span::Loc;

verus! {

/// Parse a single statement from the start of `tokens`, tolerating
/// incomplete input: see [`WinnowParser::parse_statement`].
pub fn parse_statement(tokens: &[Token], spec: &DialectSpec) -> (res: Option<Loc<Statement>>)
    ensures
        ({
            let p = skip_semicolons(tokens@, 0);
            if is_partial_from(tokens@, p) {
                res matches Some(s) && s.item is Partial
            } else {
                match dml_keyword_at(tokens@, p) {
                    Some(Keyword::Insert) => (res is None || res->0.item is Insert) && (res is Some
                        ==> kind_at(tokens@, p + 1) == Some(TokenKind::Keyword(Keyword::Into))
                        && name_part_kind(kind_at(tokens@, p + 2))) && (insert_ok_at(tokens@, p) ==> res is Some),
                    Some(Keyword::Update) => (res is None || res->0.item is Update) && (update_ok_at(tokens@, p)
                        ==> res is Some),
                    Some(_) => (res is None || res->0.item is Delete) && (res is Some <==> kind_at(
                        tokens@,
                        p + 1,
                    ) == Some(TokenKind::Keyword(Keyword::From)) && name_part_kind(kind_at(tokens@, p + 2))),
                    None => res matches Some(s) && s.item is Query,
                }
            }
        }),
        res matches Some(s) ==> s.span.start == spec_pos(tokens@, skip_semicolons(tokens@, 0)),
        kind_at(tokens@, skip_semicolons(tokens@, 0)) == Some(TokenKind::Keyword(Keyword::Select)) ==> (
        res matches Some(s) && is_select_query(s.item)),
        ({
            let p = skip_semicolons(tokens@, 0);
            &&& simple_select_at(tokens@, p) ==> (res matches Some(s) && s.item matches Statement::Query(q)
                && simple_select_query(q.item, tokens@, p))
            &&& join_select_at(tokens@, p) ==> (res matches Some(s) && s.item matches Statement::Query(q)
                && join_select_query(q.item, tokens@, p))
            &&& list_select_at(tokens@, p) ==> (res matches Some(s) && s.item matches Statement::Query(q)
                && list_select_query(q.item, tokens@, p))
            &&& union_select_at(tokens@, p) ==> (res matches Some(s) && s.item matches Statement::Query(q)
                && union_select_query(q.item, tokens@, p))
            &&& tail_select_at(tokens@, p) ==> (res matches Some(s) && s.item matches Statement::Query(q)
                && tail_select_query(q.item, tokens@, p))
            &&& cte_select_at(tokens@, p) ==> (res matches Some(s) && s.item matches Statement::Query(q)
                && cte_select_query(q.item, tokens@, p))
            &&& simple_insert_at(tokens@, p) ==> (res matches Some(s) && s.item matches Statement::Insert(i)
                && is_simple_insert(i.item, tokens@, p))
            &&& simple_update_at(tokens@, p) ==> (res matches Some(s) && s.item matches Statement::Update(u)
                && u.item.assignments.items@.len() == 1 && is_simple_update(u.item, tokens@, p))
            &&& simple_delete_at(tokens@, p) ==> (res matches Some(s) && s.item matches Statement::Delete(d)
                && is_simple_delete(d.item, tokens@, p))
        }),
{
    let mut parser = WinnowParser::new(tokens, spec);
    parser.parse_statement()
}

} // verus!
