//! Where column completions are offered.
use vstd::prelude::*;

use crate::engine::context::{ClauseKind, Cursor, Location};
use crate::engine::provider::table::offers_tables;
use crate::lex::{Keyword, OpTag};

verus! {

/// Whether a join condition is being written: `ON` is the keyword the
/// cursor is on or after, or one of the keywords before it.
pub open spec fn after_on(current: Option<Keyword>, preceding: Seq<Keyword>) -> bool {
    current == Some(Keyword::On) || preceding.contains(Keyword::On)
}

/// Whether columns are offered: in the select list after its keyword, a
/// comma or a dot; in FROM inside a join condition (after `ON`, `AND` or
/// `OR`) or after a dot; in WHERE after its keyword, `AND`, `OR` or a dot;
/// in GROUP BY and ORDER BY after the keyword or a comma; in USING after its
/// parenthesis or keyword.
pub open spec fn offers_columns(
    clause: ClauseKind,
    location: Location,
    current: Option<Keyword>,
    preceding: Seq<Keyword>,
) -> bool {
    match clause {
        ClauseKind::Select => match location {
            Location::Space(inner) => *inner is Keyword || *inner is Comma || *inner is Dot,
            Location::Dot => true,
            _ => false,
        },
        ClauseKind::From => match location {
            Location::Space(inner) => match *inner {
                Location::Keyword => after_on(current, preceding),
                Location::Operator(op) => (op == OpTag::And || op == OpTag::Or) && after_on(current, preceding),
                Location::Dot => true,
                _ => false,
            },
            Location::Dot => true,
            _ => false,
        },
        ClauseKind::Where => match location {
            Location::Space(inner) => match *inner {
                Location::Keyword => true,
                Location::Operator(op) => op == OpTag::And || op == OpTag::Or,
                _ => false,
            },
            Location::Dot => true,
            _ => false,
        },
        ClauseKind::GroupBy | ClauseKind::OrderBy => match location {
            Location::Space(inner) => *inner is Keyword || *inner is Comma,
            _ => false,
        },
        ClauseKind::Using => match location {
            Location::Paren => true,
            Location::Space(inner) => *inner is Keyword || *inner is Paren,
            _ => false,
        },
        ClauseKind::Other => false,
    }
}

/// In ORDER BY, as in GROUP BY, columns are offered at exactly the places
/// where a FROM clause offers tables when no schema qualifier is written:
/// after the clause's keyword or after a comma, once a space follows.
pub proof fn law_sort_and_group_positions(location: Location, current: Option<Keyword>, preceding: Seq<Keyword>)
    ensures
        offers_columns(ClauseKind::OrderBy, location, current, preceding) == offers_columns(
            ClauseKind::GroupBy,
            location,
            current,
            preceding,
        ),
        offers_columns(ClauseKind::OrderBy, location, current, preceding) == offers_tables(
            ClauseKind::From,
            location,
            false,
        ),
{
}

/// Where columns are offered, clause by clause. Right after a dot (a
/// qualifier being completed) they are offered in the select list, in FROM
/// and in WHERE. After a space they are offered: in the select list after
/// its keyword, a comma or a dot; in WHERE after its keyword, `AND` or `OR`;
/// in FROM after a dot anywhere, and after a keyword, `AND` or `OR` only
/// once `ON` has been written; in USING after its keyword or its opening
/// parenthesis, as right after that parenthesis. Nowhere else, and never in
/// another clause.
pub proof fn law_column_positions(location: Location, current: Option<Keyword>, preceding: Seq<Keyword>)
    ensures
        location == Location::Dot ==> (offers_columns(ClauseKind::Select, location, current, preceding)
            && offers_columns(ClauseKind::From, location, current, preceding) && offers_columns(
            ClauseKind::Where,
            location,
            current,
            preceding,
        ) && !offers_columns(ClauseKind::GroupBy, location, current, preceding) && !offers_columns(
            ClauseKind::Using,
            location,
            current,
            preceding,
        )),
        forall|inner: Location|
            location == Location::Space(Box::new(inner)) ==> {
                &&& offers_columns(ClauseKind::Select, location, current, preceding) == (inner == Location::Keyword
                    || inner == Location::Comma || inner == Location::Dot)
                &&& offers_columns(ClauseKind::Where, location, current, preceding) == (inner == Location::Keyword
                    || inner == Location::Operator(OpTag::And) || inner == Location::Operator(OpTag::Or))
                &&& offers_columns(ClauseKind::From, location, current, preceding) == (inner == Location::Dot || (
                (inner == Location::Keyword || inner == Location::Operator(OpTag::And) || inner == Location::Operator(
                    OpTag::Or,
                )) && (current == Some(Keyword::On) || preceding.contains(Keyword::On))))
                &&& offers_columns(ClauseKind::Using, location, current, preceding) == (inner == Location::Keyword
                    || inner == Location::Paren)
            },
        offers_columns(ClauseKind::Using, Location::Paren, current, preceding),
        !offers_columns(ClauseKind::Other, location, current, preceding),
        !(location is Space || location is Dot || location is Paren) ==> !offers_columns(
            ClauseKind::Select,
            location,
            current,
            preceding,
        ) && !offers_columns(ClauseKind::Where, location, current, preceding) && !offers_columns(
            ClauseKind::From,
            location,
            current,
            preceding,
        ) && !offers_columns(ClauseKind::GroupBy, location, current, preceding) && !offers_columns(
            ClauseKind::OrderBy,
            location,
            current,
            preceding,
        ) && !offers_columns(ClauseKind::Using, location, current, preceding),
{
}

/// Whether `ON` is among the keywords.
fn has_on(keywords: &Vec<Keyword>) -> (res: bool)
    ensures
        res == keywords@.contains(Keyword::On),
{
    let mut i: usize = 0;
    while i < keywords.len()
        invariant
            i <= keywords@.len(),
            forall|j: int| 0 <= j < i ==> keywords@[j] != Keyword::On,
        decreases keywords.len() - i,
    {
        if keywords[i] == Keyword::On {
            assert(keywords@[i as int] == Keyword::On);
            return true;
        }
        i += 1;
    }
    false
}

/// Whether a join condition is being written at this cursor.
fn cursor_after_on(cursor: &Cursor) -> (res: bool)
    ensures
        res == after_on(cursor.current_keyword, cursor.preceding@),
{
    cursor.current_keyword == Some(Keyword::On) || has_on(&cursor.preceding)
}

/// Whether columns are offered at this cursor in this clause.
pub fn supports(clause: ClauseKind, cursor: &Cursor) -> (res: bool)
    ensures
        res == offers_columns(clause, cursor.location, cursor.current_keyword, cursor.preceding@),
{
    match clause {
        ClauseKind::Select => match &cursor.location {
            Location::Space(inner) => match &**inner {
                Location::Keyword | Location::Comma | Location::Dot => true,
                _ => false,
            },
            Location::Dot => true,
            _ => false,
        },
        ClauseKind::From => match &cursor.location {
            Location::Space(inner) => match &**inner {
                Location::Keyword => cursor_after_on(cursor),
                Location::Operator(op) => (*op == OpTag::And || *op == OpTag::Or) && cursor_after_on(cursor),
                Location::Dot => true,
                _ => false,
            },
            Location::Dot => true,
            _ => false,
        },
        ClauseKind::Where => match &cursor.location {
            Location::Space(inner) => match &**inner {
                Location::Keyword => true,
                Location::Operator(op) => *op == OpTag::And || *op == OpTag::Or,
                _ => false,
            },
            Location::Dot => true,
            _ => false,
        },
        ClauseKind::GroupBy | ClauseKind::OrderBy => match &cursor.location {
            Location::Space(inner) => match &**inner {
                Location::Keyword | Location::Comma => true,
                _ => false,
            },
            _ => false,
        },
        ClauseKind::Using => match &cursor.location {
            Location::Paren => true,
            Location::Space(inner) => match &**inner {
                Location::Keyword | Location::Paren => true,
                _ => false,
            },
            _ => false,
        },
        ClauseKind::Other => false,
    }
}

} // verus!
