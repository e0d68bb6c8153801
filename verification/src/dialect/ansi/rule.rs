//! The ANSI keyword follow rules: backward token patterns over the text
//! before the cursor, each with the keywords that may come next.
use vstd::prelude::*;

use crate::dialect::follow::{next_key, Next, Rule, Rules};
use crate::dialect::rule::{chain, end, kw, many, not, op, or, peek, scoped, tk, until};
use crate::lex::rule::Cond;
use crate::lex::Keyword as Kw;
use crate::lex::OpTag as Op;
use crate::lex::TokenKind as Tk;

verus! {

/// The ANSI follow rules, in order: each one's pattern and suggestions.
pub open spec fn is_ansi_rules(rs: Seq<Rule>) -> bool {
    &&& rs.len() == 40
    &&& is_start_rule(rs[0])
    &&& is_select_rule(rs[1])
    &&& is_select_as_rule(rs[2])
    &&& is_from_rule(rs[3])
    &&& is_where_rule(rs[4])
    &&& is_order_by_dir_rule(rs[5])
    &&& is_order_by_dir_after_comma_rule(rs[6])
    &&& is_order_by_nulls_placement_rule(rs[7])
    &&& is_order_by_follow_rule(rs[8])
    &&& is_order_by_rule(rs[9])
    &&& is_order_by_suggest_rule(rs[10])
    &&& is_group_by_rule(rs[11])
    &&& is_group_by_suggest_rule(rs[12])
    &&& is_limit_rule(rs[13])
    &&& is_subquery_rule(rs[14])
    &&& is_with_cte_recursive_rule(rs[15])
    &&& is_with_cte_as_rule(rs[16])
    &&& is_join_rule(rs[17])
    &&& is_join_after_from_rule(rs[18])
    &&& is_inner_join_rule(rs[19])
    &&& is_left_join_rule(rs[20])
    &&& is_right_join_rule(rs[21])
    &&& is_full_join_rule(rs[22])
    &&& is_cross_join_rule(rs[23])
    &&& is_left_outer_join_rule(rs[24])
    &&& is_right_outer_join_rule(rs[25])
    &&& is_full_outer_join_rule(rs[26])
    &&& is_natural_join_rule(rs[27])
    &&& is_having_rule(rs[28])
    &&& is_having_after_group_by_rule(rs[29])
    &&& is_insert_into_rule(rs[30])
    &&& is_create_table_rule(rs[31])
    &&& is_primary_key_rule(rs[32])
    &&& is_foreign_key_rule(rs[33])
    &&& is_case_when_rule(rs[34])
    &&& is_when_then_rule(rs[35])
    &&& is_then_follow_rule(rs[36])
    &&& is_else_end_rule(rs[37])
    &&& is_set_operation_all_rule(rs[38])
    &&& is_set_op_rule(rs[39])
}

/// The ANSI follow rules, in the order they are tried.
pub fn rules() -> (res: Rules)
    ensures
        is_ansi_rules(res.0@),
{
    Rules(
        vec![
            start_rule(),
            select_rule(),
            select_as_rule(),
            from_rule(),
            where_rule(),
            order_by_dir_rule(),
            order_by_dir_after_comma_rule(),
            order_by_nulls_placement_rule(),
            order_by_follow_rule(),
            order_by_rule(),
            order_by_suggest_rule(),
            group_by_rule(),
            group_by_suggest_rule(),
            limit_rule(),
            subquery_rule(),
            with_cte_recursive_rule(),
            with_cte_as_rule(),
            join_rule(),
            join_after_from_rule(),
            inner_join_rule(),
            left_join_rule(),
            right_join_rule(),
            full_join_rule(),
            cross_join_rule(),
            left_outer_join_rule(),
            right_outer_join_rule(),
            full_outer_join_rule(),
            natural_join_rule(),
            having_rule(),
            having_after_group_by_rule(),
            insert_into_rule(),
            create_table_rule(),
            primary_key_rule(),
            foreign_key_rule(),
            case_when_rule(),
            when_then_rule(),
            then_follow_rule(),
            else_end_rule(),
            set_operation_all_rule(),
            set_op_rule(),
        ],
    )
}

/// The pattern of [`start_rule`].
pub open spec fn start_pattern(c: Cond) -> bool {
    &&& c matches Cond::Any(v1)
    &&& v1@.len() == 2
    &&& (v1@[0] matches Cond::Sequence(v2) && v2@.len() == 2 && is_end_condition(v2@[0]) && v2@[1] == Cond::Kind(Tk::Identifier))
    &&& is_end_condition(v1@[1])
}

/// The rule [`start_rule`] gives: its pattern and what it suggests.
pub open spec fn is_start_rule(r: Rule) -> bool {
    &&& start_pattern(r.0)
    &&& r.1@.map_values(|n: Next| next_key(n)) =~~= seq![
                (false, seq![Kw::Select]),
                (false, seq![Kw::Insert]),
                (false, seq![Kw::Update]),
                (false, seq![Kw::Delete]),
                (false, seq![Kw::Create]),
                (false, seq![Kw::Alter]),
                (false, seq![Kw::Drop]),
                (false, seq![Kw::Merge]),
                (false, seq![Kw::With]),
            ]
}

pub fn start_rule() -> (res: Rule)
    ensures
        is_start_rule(res),
        res.1@.map_values(|n: Next| next_key(n)) =~~= seq![
            (false, seq![Kw::Select]),
            (false, seq![Kw::Insert]),
            (false, seq![Kw::Update]),
            (false, seq![Kw::Delete]),
            (false, seq![Kw::Create]),
            (false, seq![Kw::Alter]),
            (false, seq![Kw::Drop]),
            (false, seq![Kw::Merge]),
            (false, seq![Kw::With]),
        ],
{
    Rule(
        or(vec![
            chain(vec![end_condition(), tk(Tk::Identifier)]),
            end_condition(),
        ]),
        vec![
            Next::Kw(Kw::Select),
            Next::Kw(Kw::Insert),
            Next::Kw(Kw::Update),
            Next::Kw(Kw::Delete),
            Next::Kw(Kw::Create),
            Next::Kw(Kw::Alter),
            Next::Kw(Kw::Drop),
            Next::Kw(Kw::Merge),
            Next::Kw(Kw::With),
        ],
    )
}

/// The pattern of [`select_rule`].
pub open spec fn select_pattern(c: Cond) -> bool {
    c == Cond::Kw(Kw::Select)
}

/// The rule [`select_rule`] gives: its pattern and what it suggests.
pub open spec fn is_select_rule(r: Rule) -> bool {
    &&& select_pattern(r.0)
    &&& r.1@.map_values(|n: Next| next_key(n)) =~~= seq![
                (false, seq![Kw::Distinct]),
                (false, seq![Kw::All]),
            ]
}

pub fn select_rule() -> (res: Rule)
    ensures
        is_select_rule(res),
        res.1@.map_values(|n: Next| next_key(n)) =~~= seq![
            (false, seq![Kw::Distinct]),
            (false, seq![Kw::All]),
        ],
{
    Rule(kw(Kw::Select), vec![Next::Kw(Kw::Distinct), Next::Kw(Kw::All)])
}

/// The pattern of [`select_as_rule`].
pub open spec fn select_as_pattern(c: Cond) -> bool {
    &&& c matches Cond::Sequence(v1)
    &&& v1@.len() == 3
    &&& v1@[0] == Cond::Kw(Kw::Select)
    &&& v1@[1] == Cond::Many(Box::new(Cond::Not(Box::new(Cond::Kw(Kw::From)))))
    &&& is_simple_value(v1@[2])
}

/// The rule [`select_as_rule`] gives: its pattern and what it suggests.
pub open spec fn is_select_as_rule(r: Rule) -> bool {
    &&& select_as_pattern(r.0)
    &&& r.1@.map_values(|n: Next| next_key(n)) =~~= seq![(false, seq![Kw::As])]
}

pub fn select_as_rule() -> (res: Rule)
    ensures
        is_select_as_rule(res),
        res.1@.map_values(|n: Next| next_key(n)) =~~= seq![(false, seq![Kw::As])],
{
    Rule(
        chain(vec![
            kw(Kw::Select),
            many(not(kw(Kw::From))),
            simple_value(),
        ]),
        vec![Next::Kw(Kw::As)],
    )
}

/// The pattern of [`from_rule`].
pub open spec fn from_pattern(c: Cond) -> bool {
    &&& c matches Cond::Any(v1)
    &&& v1@.len() == 2
    &&& (v1@[0] matches Cond::Sequence(v2) && v2@.len() == 2 && (v2@[0] matches Cond::Any(v3) && v3@ == seq![Cond::Kw(Kw::Select), Cond::Kind(Tk::Identifier), Cond::Kind(Tk::Comma)]) && (v2@[1] matches Cond::Any(v4) && v4@.len() == 2 && is_simple_value(v4@[0]) && v4@[1] == Cond::Op(Op::Mul)))
    &&& (v1@[1] matches Cond::Sequence(v5) && v5@.len() == 3 && v5@[0] == Cond::Peek(Box::new(Cond::Kw(Kw::Select))) && v5@[1] == Cond::Many(Box::new(Cond::Not(Box::new(Cond::Kw(Kw::From))))) && is_simple_value(v5@[2]))
}

/// The rule [`from_rule`] gives: its pattern and what it suggests.
pub open spec fn is_from_rule(r: Rule) -> bool {
    &&& from_pattern(r.0)
    &&& r.1@.map_values(|n: Next| next_key(n)) =~~= seq![(false, seq![Kw::From])]
}

pub fn from_rule() -> (res: Rule)
    ensures
        is_from_rule(res),
        res.1@.map_values(|n: Next| next_key(n)) =~~= seq![(false, seq![Kw::From])],
{
    Rule(
        or(vec![
            chain(vec![
                or(vec![kw(Kw::Select), tk(Tk::Identifier), tk(Tk::Comma)]),
                or(vec![simple_value(), op(Op::Mul)]),
            ]),
            chain(vec![
                peek(kw(Kw::Select)),
                many(not(kw(Kw::From))),
                simple_value(),
            ]),
        ]),
        vec![Next::Kw(Kw::From)],
    )
}

/// The pattern of [`where_rule`].
pub open spec fn where_pattern(c: Cond) -> bool {
    &&& c matches Cond::Sequence(v1)
    &&& v1@.len() == 3
    &&& v1@[0] == Cond::Kw(Kw::From)
    &&& (v1@[1] matches Cond::Many(b2) && (*b2 matches Cond::Not(b3) && (*b3 matches Cond::Any(v4) && v4@ == seq![Cond::Kw(Kw::From), Cond::Kw(Kw::Where)])))
    &&& is_simple_value(v1@[2])
}

/// The rule [`where_rule`] gives: its pattern and what it suggests.
pub open spec fn is_where_rule(r: Rule) -> bool {
    &&& where_pattern(r.0)
    &&& r.1@.map_values(|n: Next| next_key(n)) =~~= seq![(false, seq![Kw::Where])]
}

pub fn where_rule() -> (res: Rule)
    ensures
        is_where_rule(res),
        res.1@.map_values(|n: Next| next_key(n)) =~~= seq![(false, seq![Kw::Where])],
{
    Rule(
        chain(vec![
            kw(Kw::From),
            many(not(or(vec![kw(Kw::From), kw(Kw::Where)]))),
            simple_value(),
        ]),
        vec![Next::Kw(Kw::Where)],
    )
}

/// The pattern of [`order_by_rule`].
pub open spec fn order_by_pattern(c: Cond) -> bool {
    c == Cond::Kw(Kw::Order)
}

/// The rule [`order_by_rule`] gives: its pattern and what it suggests.
pub open spec fn is_order_by_rule(r: Rule) -> bool {
    &&& order_by_pattern(r.0)
    &&& r.1@.map_values(|n: Next| next_key(n)) =~~= seq![(false, seq![Kw::By])]
}

pub fn order_by_rule() -> (res: Rule)
    ensures
        is_order_by_rule(res),
        res.1@.map_values(|n: Next| next_key(n)) =~~= seq![(false, seq![Kw::By])],
{
    Rule(kw(Kw::Order), vec![Next::Kw(Kw::By)])
}

/// The pattern of [`order_by_suggest_rule`].
pub open spec fn order_by_suggest_pattern(c: Cond) -> bool {
    &&& c matches Cond::Sequence(v1)
    &&& v1@.len() == 2
    &&& (v1@[0] matches Cond::Not(b2) && (*b2 matches Cond::Any(v3) && v3@ == seq![Cond::Kw(Kw::Select), Cond::Kw(Kw::Where), Cond::Kw(Kw::Group), Cond::Kw(Kw::Order), Cond::Kw(Kw::By), Cond::Kw(Kw::Having), Cond::Kw(Kw::With), Cond::Op(Op::And), Cond::Op(Op::Or), Cond::Kind(Tk::Dot)]))
    &&& is_simple_value(v1@[1])
}

/// The rule [`order_by_suggest_rule`] gives: its pattern and what it suggests.
pub open spec fn is_order_by_suggest_rule(r: Rule) -> bool {
    &&& order_by_suggest_pattern(r.0)
    &&& r.1@.map_values(|n: Next| next_key(n)) =~~= seq![(true, seq![Kw::Order, Kw::By])]
}

pub fn order_by_suggest_rule() -> (res: Rule)
    ensures
        is_order_by_suggest_rule(res),
        res.1@.map_values(|n: Next| next_key(n)) =~~= seq![(true, seq![Kw::Order, Kw::By])],
{
    Rule(
        chain(vec![
            not(or(vec![
                kw(Kw::Select),
                kw(Kw::Where),
                kw(Kw::Group),
                kw(Kw::Order),
                kw(Kw::By),
                kw(Kw::Having),
                kw(Kw::With),
                op(Op::And),
                op(Op::Or),
                tk(Tk::Dot),
            ])),
            simple_value(),
        ]),
        vec![Next::KwSeq(vec![Kw::Order, Kw::By])],
    )
}

/// The pattern of [`order_by_dir_rule`].
pub open spec fn order_by_dir_pattern(c: Cond) -> bool {
    &&& c matches Cond::Sequence(v1)
    &&& v1@.len() == 4
    &&& v1@[0] == Cond::Kw(Kw::Order)
    &&& v1@[1] == Cond::Kw(Kw::By)
    &&& (v1@[2] matches Cond::Many(b2) && (*b2 matches Cond::Not(b3) && (*b3 matches Cond::Any(v4) && v4@ == seq![Cond::Kw(Kw::By), Cond::Kind(Tk::Comma), Cond::Kw(Kw::Asc), Cond::Kw(Kw::Desc), Cond::Kw(Kw::Nulls), Cond::Kw(Kw::Offset), Cond::Kw(Kw::Fetch), Cond::Kw(Kw::Limit)])))
    &&& is_simple_value(v1@[3])
}

/// The rule [`order_by_dir_rule`] gives: its pattern and what it suggests.
pub open spec fn is_order_by_dir_rule(r: Rule) -> bool {
    &&& order_by_dir_pattern(r.0)
    &&& r.1@.map_values(|n: Next| next_key(n)) =~~= seq![
                (false, seq![Kw::Asc]),
                (false, seq![Kw::Desc]),
                (false, seq![Kw::Nulls]),
            ]
}

pub fn order_by_dir_rule() -> (res: Rule)
    ensures
        is_order_by_dir_rule(res),
        res.1@.map_values(|n: Next| next_key(n)) =~~= seq![
            (false, seq![Kw::Asc]),
            (false, seq![Kw::Desc]),
            (false, seq![Kw::Nulls]),
        ],
{
    Rule(
        chain(vec![
            kw(Kw::Order),
            kw(Kw::By),
            many(not(or(vec![
                kw(Kw::By),
                tk(Tk::Comma),
                kw(Kw::Asc),
                kw(Kw::Desc),
                kw(Kw::Nulls),
                kw(Kw::Offset),
                kw(Kw::Fetch),
                kw(Kw::Limit),
            ]))),
            simple_value(),
        ]),
        vec![Next::Kw(Kw::Asc), Next::Kw(Kw::Desc), Next::Kw(Kw::Nulls)],
    )
}

/// The pattern of [`order_by_nulls_placement_rule`].
pub open spec fn order_by_nulls_placement_pattern(c: Cond) -> bool {
    c == Cond::Kw(Kw::Nulls)
}

/// The rule [`order_by_nulls_placement_rule`] gives: its pattern and what it suggests.
pub open spec fn is_order_by_nulls_placement_rule(r: Rule) -> bool {
    &&& order_by_nulls_placement_pattern(r.0)
    &&& r.1@.map_values(|n: Next| next_key(n)) =~~= seq![
                (false, seq![Kw::First]),
                (false, seq![Kw::Last]),
            ]
}

pub fn order_by_nulls_placement_rule() -> (res: Rule)
    ensures
        is_order_by_nulls_placement_rule(res),
        res.1@.map_values(|n: Next| next_key(n)) =~~= seq![
            (false, seq![Kw::First]),
            (false, seq![Kw::Last]),
        ],
{
    Rule(kw(Kw::Nulls), vec![Next::Kw(Kw::First), Next::Kw(Kw::Last)])
}

/// The pattern of [`order_by_dir_after_comma_rule`].
pub open spec fn order_by_dir_after_comma_pattern(c: Cond) -> bool {
    &&& c matches Cond::Sequence(v1)
    &&& v1@.len() == 5
    &&& v1@[0] == Cond::Kw(Kw::Order)
    &&& v1@[1] == Cond::Kw(Kw::By)
    &&& (v1@[2] matches Cond::Many(b2) && (*b2 matches Cond::Not(b3) && (*b3 matches Cond::Any(v4) && v4@ == seq![Cond::Kw(Kw::By), Cond::Kw(Kw::Offset), Cond::Kw(Kw::Fetch), Cond::Kw(Kw::Limit), Cond::Kw(Kw::Union), Cond::Kw(Kw::Intersect), Cond::Kw(Kw::Except)])))
    &&& v1@[3] == Cond::Kind(Tk::Comma)
    &&& is_simple_value(v1@[4])
}

/// The rule [`order_by_dir_after_comma_rule`] gives: its pattern and what it suggests.
pub open spec fn is_order_by_dir_after_comma_rule(r: Rule) -> bool {
    &&& order_by_dir_after_comma_pattern(r.0)
    &&& r.1@.map_values(|n: Next| next_key(n)) =~~= seq![
                (false, seq![Kw::Asc]),
                (false, seq![Kw::Desc]),
                (false, seq![Kw::Nulls]),
            ]
}

// Suggest ASC/DESC/NULLS after a column following a comma in ORDER BY
pub fn order_by_dir_after_comma_rule() -> (res: Rule)
    ensures
        is_order_by_dir_after_comma_rule(res),
        res.1@.map_values(|n: Next| next_key(n)) =~~= seq![
            (false, seq![Kw::Asc]),
            (false, seq![Kw::Desc]),
            (false, seq![Kw::Nulls]),
        ],
{
    Rule(
        chain(vec![
            kw(Kw::Order),
            kw(Kw::By),
            many(not(or(vec![
                kw(Kw::By),
                kw(Kw::Offset),
                kw(Kw::Fetch),
                kw(Kw::Limit),
                kw(Kw::Union),
                kw(Kw::Intersect),
                kw(Kw::Except),
            ]))),
            tk(Tk::Comma),
            simple_value(),
        ]),
        vec![Next::Kw(Kw::Asc), Next::Kw(Kw::Desc), Next::Kw(Kw::Nulls)],
    )
}

/// The pattern of [`order_by_follow_rule`].
pub open spec fn order_by_follow_pattern(c: Cond) -> bool {
    &&& c matches Cond::Sequence(v1)
    &&& v1@.len() == 4
    &&& v1@[0] == Cond::Kw(Kw::Order)
    &&& v1@[1] == Cond::Kw(Kw::By)
    &&& (v1@[2] matches Cond::Many(b2) && (*b2 matches Cond::Not(b3) && (*b3 matches Cond::Any(v4) && v4@ == seq![Cond::Kw(Kw::By), Cond::Kw(Kw::Offset), Cond::Kw(Kw::Fetch), Cond::Kw(Kw::Limit), Cond::Kw(Kw::Union), Cond::Kw(Kw::Intersect), Cond::Kw(Kw::Except)])))
    &&& is_simple_value(v1@[3])
}

/// The rule [`order_by_follow_rule`] gives: its pattern and what it suggests.
pub open spec fn is_order_by_follow_rule(r: Rule) -> bool {
    &&& order_by_follow_pattern(r.0)
    &&& r.1@.map_values(|n: Next| next_key(n)) =~~= seq![
                (false, seq![Kw::Offset]),
                (false, seq![Kw::Fetch]),
            ]
}

pub fn order_by_follow_rule() -> (res: Rule)
    ensures
        is_order_by_follow_rule(res),
        res.1@.map_values(|n: Next| next_key(n)) =~~= seq![
            (false, seq![Kw::Offset]),
            (false, seq![Kw::Fetch]),
        ],
{
    Rule(
        chain(vec![
            kw(Kw::Order),
            kw(Kw::By),
            many(not(or(vec![
                kw(Kw::By),
                kw(Kw::Offset),
                kw(Kw::Fetch),
                kw(Kw::Limit),
                kw(Kw::Union),
                kw(Kw::Intersect),
                kw(Kw::Except),
            ]))),
            simple_value(),
        ]),
        vec![Next::Kw(Kw::Offset), Next::Kw(Kw::Fetch)],
    )
}

/// The pattern of [`limit_rule`].
pub open spec fn limit_pattern(c: Cond) -> bool {
    &&& c matches Cond::Sequence(v1)
    &&& v1@.len() == 2
    &&& (v1@[0] matches Cond::Not(b2) && (*b2 matches Cond::Any(v3) && v3@ == seq![Cond::Kw(Kw::Where), Cond::Kw(Kw::Group), Cond::Kw(Kw::Order), Cond::Kw(Kw::By), Cond::Kw(Kw::Having), Cond::Kw(Kw::With), Cond::Op(Op::And), Cond::Op(Op::Or), Cond::Kind(Tk::Dot)]))
    &&& is_simple_value(v1@[1])
}

/// The rule [`limit_rule`] gives: its pattern and what it suggests.
pub open spec fn is_limit_rule(r: Rule) -> bool {
    &&& limit_pattern(r.0)
    &&& r.1@.map_values(|n: Next| next_key(n)) =~~= seq![(false, seq![Kw::Limit])]
}

pub fn limit_rule() -> (res: Rule)
    ensures
        is_limit_rule(res),
        res.1@.map_values(|n: Next| next_key(n)) =~~= seq![(false, seq![Kw::Limit])],
{
    Rule(
        chain(vec![
            not(or(vec![
                kw(Kw::Where),
                kw(Kw::Group),
                kw(Kw::Order),
                kw(Kw::By),
                kw(Kw::Having),
                kw(Kw::With),
                op(Op::And),
                op(Op::Or),
                tk(Tk::Dot),
            ])),
            simple_value(),
        ]),
        vec![Next::Kw(Kw::Limit)],
    )
}

/// The pattern of [`subquery_rule`].
pub open spec fn subquery_pattern(c: Cond) -> bool {
    c == Cond::Kind(Tk::LeftParen)
}

/// The rule [`subquery_rule`] gives: its pattern and what it suggests.
pub open spec fn is_subquery_rule(r: Rule) -> bool {
    &&& subquery_pattern(r.0)
    &&& r.1@.map_values(|n: Next| next_key(n)) =~~= seq![(false, seq![Kw::Select])]
}

pub fn subquery_rule() -> (res: Rule)
    ensures
        is_subquery_rule(res),
        res.1@.map_values(|n: Next| next_key(n)) =~~= seq![(false, seq![Kw::Select])],
{
    Rule(tk(Tk::LeftParen), vec![Next::Kw(Kw::Select)])
}

/// The pattern of [`with_cte_recursive_rule`].
pub open spec fn with_cte_recursive_pattern(c: Cond) -> bool {
    c == Cond::Kw(Kw::With)
}

/// The rule [`with_cte_recursive_rule`] gives: its pattern and what it suggests.
pub open spec fn is_with_cte_recursive_rule(r: Rule) -> bool {
    &&& with_cte_recursive_pattern(r.0)
    &&& r.1@.map_values(|n: Next| next_key(n)) =~~= seq![(false, seq![Kw::Recursive])]
}

pub fn with_cte_recursive_rule() -> (res: Rule)
    ensures
        is_with_cte_recursive_rule(res),
        res.1@.map_values(|n: Next| next_key(n)) =~~= seq![(false, seq![Kw::Recursive])],
{
    Rule(kw(Kw::With), vec![Next::Kw(Kw::Recursive)])
}
/// The pattern of [`with_cte_as_rule`].
pub open spec fn with_cte_as_pattern(c: Cond) -> bool {
    &&& c matches Cond::Sequence(v1)
    &&& v1@ == seq![Cond::Kw(Kw::With), Cond::Kind(Tk::Identifier)]
}

/// The rule [`with_cte_as_rule`] gives: its pattern and what it suggests.
pub open spec fn is_with_cte_as_rule(r: Rule) -> bool {
    &&& with_cte_as_pattern(r.0)
    &&& r.1@.map_values(|n: Next| next_key(n)) =~~= seq![(true, seq![Kw::As])]
}

pub fn with_cte_as_rule() -> (res: Rule)
    ensures
        is_with_cte_as_rule(res),
        res.1@.map_values(|n: Next| next_key(n)) =~~= seq![(true, seq![Kw::As])],
{
    Rule(
        chain(vec![kw(Kw::With), tk(Tk::Identifier)]),
        vec![Next::KwSeq(vec![Kw::As])],
    )
}

/// The pattern of [`group_by_rule`].
pub open spec fn group_by_pattern(c: Cond) -> bool {
    c == Cond::Kw(Kw::Group)
}

/// The rule [`group_by_rule`] gives: its pattern and what it suggests.
pub open spec fn is_group_by_rule(r: Rule) -> bool {
    &&& group_by_pattern(r.0)
    &&& r.1@.map_values(|n: Next| next_key(n)) =~~= seq![(false, seq![Kw::By])]
}

pub fn group_by_rule() -> (res: Rule)
    ensures
        is_group_by_rule(res),
        res.1@.map_values(|n: Next| next_key(n)) =~~= seq![(false, seq![Kw::By])],
{
    Rule(kw(Kw::Group), vec![Next::Kw(Kw::By)])
}

/// The pattern of [`group_by_suggest_rule`].
pub open spec fn group_by_suggest_pattern(c: Cond) -> bool {
    &&& c matches Cond::Sequence(v1)
    &&& v1@.len() == 2
    &&& (v1@[0] matches Cond::Not(b2) && (*b2 matches Cond::Any(v3) && v3@ == seq![Cond::Kw(Kw::Select), Cond::Kw(Kw::Where), Cond::Kw(Kw::Group), Cond::Kw(Kw::Order), Cond::Kw(Kw::By), Cond::Kw(Kw::Having), Cond::Kw(Kw::With), Cond::Op(Op::And), Cond::Op(Op::Or), Cond::Kind(Tk::Dot)]))
    &&& is_simple_value(v1@[1])
}

/// The rule [`group_by_suggest_rule`] gives: its pattern and what it suggests.
pub open spec fn is_group_by_suggest_rule(r: Rule) -> bool {
    &&& group_by_suggest_pattern(r.0)
    &&& r.1@.map_values(|n: Next| next_key(n)) =~~= seq![(true, seq![Kw::Group, Kw::By])]
}

pub fn group_by_suggest_rule() -> (res: Rule)
    ensures
        is_group_by_suggest_rule(res),
        res.1@.map_values(|n: Next| next_key(n)) =~~= seq![(true, seq![Kw::Group, Kw::By])],
{
    Rule(
        chain(vec![
            not(or(vec![
                kw(Kw::Select),
                kw(Kw::Where),
                kw(Kw::Group),
                kw(Kw::Order),
                kw(Kw::By),
                kw(Kw::Having),
                kw(Kw::With),
                op(Op::And),
                op(Op::Or),
                tk(Tk::Dot),
            ])),
            simple_value(),
        ]),
        vec![Next::KwSeq(vec![Kw::Group, Kw::By])],
    )
}

/// The pattern of [`join_rule`].
pub open spec fn join_pattern(c: Cond) -> bool {
    c == Cond::Kw(Kw::Join)
}

/// The rule [`join_rule`] gives: its pattern and what it suggests.
pub open spec fn is_join_rule(r: Rule) -> bool {
    &&& join_pattern(r.0)
    &&& r.1@.map_values(|n: Next| next_key(n)) =~~= seq![
                (false, seq![Kw::On]),
                (false, seq![Kw::Using]),
            ]
}

pub fn join_rule() -> (res: Rule)
    ensures
        is_join_rule(res),
        res.1@.map_values(|n: Next| next_key(n)) =~~= seq![
            (false, seq![Kw::On]),
            (false, seq![Kw::Using]),
        ],
{
    Rule(kw(Kw::Join), vec![Next::Kw(Kw::On), Next::Kw(Kw::Using)])
}

/// The pattern of [`inner_join_rule`].
pub open spec fn inner_join_pattern(c: Cond) -> bool {
    c == Cond::Kw(Kw::Inner)
}

/// The rule [`inner_join_rule`] gives: its pattern and what it suggests.
pub open spec fn is_inner_join_rule(r: Rule) -> bool {
    &&& inner_join_pattern(r.0)
    &&& r.1@.map_values(|n: Next| next_key(n)) =~~= seq![(false, seq![Kw::Join])]
}

pub fn inner_join_rule() -> (res: Rule)
    ensures
        is_inner_join_rule(res),
        res.1@.map_values(|n: Next| next_key(n)) =~~= seq![(false, seq![Kw::Join])],
{
    Rule(kw(Kw::Inner), vec![Next::Kw(Kw::Join)])
}

/// The pattern of [`left_join_rule`].
pub open spec fn left_join_pattern(c: Cond) -> bool {
    c == Cond::Kw(Kw::Left)
}

/// The rule [`left_join_rule`] gives: its pattern and what it suggests.
pub open spec fn is_left_join_rule(r: Rule) -> bool {
    &&& left_join_pattern(r.0)
    &&& r.1@.map_values(|n: Next| next_key(n)) =~~= seq![
                (false, seq![Kw::Join]),
                (false, seq![Kw::Outer]),
            ]
}

pub fn left_join_rule() -> (res: Rule)
    ensures
        is_left_join_rule(res),
        res.1@.map_values(|n: Next| next_key(n)) =~~= seq![
            (false, seq![Kw::Join]),
            (false, seq![Kw::Outer]),
        ],
{
    Rule(kw(Kw::Left), vec![Next::Kw(Kw::Join), Next::Kw(Kw::Outer)])
}

/// The pattern of [`right_join_rule`].
pub open spec fn right_join_pattern(c: Cond) -> bool {
    c == Cond::Kw(Kw::Right)
}

/// The rule [`right_join_rule`] gives: its pattern and what it suggests.
pub open spec fn is_right_join_rule(r: Rule) -> bool {
    &&& right_join_pattern(r.0)
    &&& r.1@.map_values(|n: Next| next_key(n)) =~~= seq![
                (false, seq![Kw::Join]),
                (false, seq![Kw::Outer]),
            ]
}

pub fn right_join_rule() -> (res: Rule)
    ensures
        is_right_join_rule(res),
        res.1@.map_values(|n: Next| next_key(n)) =~~= seq![
            (false, seq![Kw::Join]),
            (false, seq![Kw::Outer]),
        ],
{
    Rule(kw(Kw::Right), vec![Next::Kw(Kw::Join), Next::Kw(Kw::Outer)])
}

/// The pattern of [`full_join_rule`].
pub open spec fn full_join_pattern(c: Cond) -> bool {
    c == Cond::Kw(Kw::Full)
}

/// The rule [`full_join_rule`] gives: its pattern and what it suggests.
pub open spec fn is_full_join_rule(r: Rule) -> bool {
    &&& full_join_pattern(r.0)
    &&& r.1@.map_values(|n: Next| next_key(n)) =~~= seq![
                (false, seq![Kw::Join]),
                (false, seq![Kw::Outer]),
            ]
}

pub fn full_join_rule() -> (res: Rule)
    ensures
        is_full_join_rule(res),
        res.1@.map_values(|n: Next| next_key(n)) =~~= seq![
            (false, seq![Kw::Join]),
            (false, seq![Kw::Outer]),
        ],
{
    Rule(kw(Kw::Full), vec![Next::Kw(Kw::Join), Next::Kw(Kw::Outer)])
}

/// The pattern of [`cross_join_rule`].
pub open spec fn cross_join_pattern(c: Cond) -> bool {
    c == Cond::Kw(Kw::Cross)
}

/// The rule [`cross_join_rule`] gives: its pattern and what it suggests.
pub open spec fn is_cross_join_rule(r: Rule) -> bool {
    &&& cross_join_pattern(r.0)
    &&& r.1@.map_values(|n: Next| next_key(n)) =~~= seq![(false, seq![Kw::Join])]
}

pub fn cross_join_rule() -> (res: Rule)
    ensures
        is_cross_join_rule(res),
        res.1@.map_values(|n: Next| next_key(n)) =~~= seq![(false, seq![Kw::Join])],
{
    Rule(kw(Kw::Cross), vec![Next::Kw(Kw::Join)])
}

/// The pattern of [`join_after_from_rule`].
pub open spec fn join_after_from_pattern(c: Cond) -> bool {
    &&& c matches Cond::Sequence(v1)
    &&& v1@.len() == 3
    &&& v1@[0] == Cond::Kw(Kw::From)
    &&& (v1@[1] matches Cond::Peek(b2) && (*b2 matches Cond::Not(b3) && (*b3 matches Cond::Any(v4) && v4@ == seq![Cond::Kw(Kw::Select), Cond::Kw(Kw::Where), Cond::Kw(Kw::Join), Cond::Kw(Kw::Inner), Cond::Kw(Kw::Left), Cond::Kw(Kw::Right), Cond::Kw(Kw::Full), Cond::Kw(Kw::Cross), Cond::Kw(Kw::Natural), Cond::Kw(Kw::Group), Cond::Kw(Kw::Order), Cond::Kw(Kw::By), Cond::Kw(Kw::Having), Cond::Kw(Kw::Limit), Cond::Kw(Kw::With), Cond::Kind(Tk::Dot)])))
    &&& (v1@[2] matches Cond::Any(v5) && v5@.len() == 3 && v5@[0] == Cond::Scoped(Box::new(Cond::Kind(Tk::LeftParen)), Box::new(Cond::Kind(Tk::RightParen))) && v5@[1] == Cond::Kind(Tk::Identifier) && (v5@[2] matches Cond::Sequence(v6) && v6@ == seq![Cond::Kind(Tk::Identifier), Cond::Kind(Tk::Identifier)]))
}

/// The rule [`join_after_from_rule`] gives: its pattern and what it suggests.
pub open spec fn is_join_after_from_rule(r: Rule) -> bool {
    &&& join_after_from_pattern(r.0)
    &&& r.1@.map_values(|n: Next| next_key(n)) =~~= seq![
                (false, seq![Kw::Join]),
                (true, seq![Kw::Inner, Kw::Join]),
                (true, seq![Kw::Left, Kw::Join]),
                (true, seq![Kw::Right, Kw::Join]),
                (true, seq![Kw::Full, Kw::Join]),
                (true, seq![Kw::Cross, Kw::Join]),
                (true, seq![Kw::Natural, Kw::Join]),
            ]
}

// Suggest JOIN keywords after a table in FROM clause
pub fn join_after_from_rule() -> (res: Rule)
    ensures
        is_join_after_from_rule(res),
        res.1@.map_values(|n: Next| next_key(n)) =~~= seq![
            (false, seq![Kw::Join]),
            (true, seq![Kw::Inner, Kw::Join]),
            (true, seq![Kw::Left, Kw::Join]),
            (true, seq![Kw::Right, Kw::Join]),
            (true, seq![Kw::Full, Kw::Join]),
            (true, seq![Kw::Cross, Kw::Join]),
            (true, seq![Kw::Natural, Kw::Join]),
        ],
{
    Rule(
        chain(vec![
            kw(Kw::From),
            peek(not(or(vec![
                kw(Kw::Select),
                kw(Kw::Where),
                kw(Kw::Join),
                kw(Kw::Inner),
                kw(Kw::Left),
                kw(Kw::Right),
                kw(Kw::Full),
                kw(Kw::Cross),
                kw(Kw::Natural),
                kw(Kw::Group),
                kw(Kw::Order),
                kw(Kw::By),
                kw(Kw::Having),
                kw(Kw::Limit),
                kw(Kw::With),
                tk(Tk::Dot),
            ]))),
            or(vec![
                sub_query(),
                tk(Tk::Identifier),
                chain(vec![tk(Tk::Identifier), tk(Tk::Identifier)]),
            ]),
        ]),
        vec![
            Next::Kw(Kw::Join),
            Next::KwSeq(vec![Kw::Inner, Kw::Join]),
            Next::KwSeq(vec![Kw::Left, Kw::Join]),
            Next::KwSeq(vec![Kw::Right, Kw::Join]),
            Next::KwSeq(vec![Kw::Full, Kw::Join]),
            Next::KwSeq(vec![Kw::Cross, Kw::Join]),
            Next::KwSeq(vec![Kw::Natural, Kw::Join]),
        ],
    )
}

/// The pattern of [`left_outer_join_rule`].
pub open spec fn left_outer_join_pattern(c: Cond) -> bool {
    &&& c matches Cond::Sequence(v1)
    &&& v1@ == seq![Cond::Kw(Kw::Left), Cond::Kw(Kw::Outer)]
}

/// The rule [`left_outer_join_rule`] gives: its pattern and what it suggests.
pub open spec fn is_left_outer_join_rule(r: Rule) -> bool {
    &&& left_outer_join_pattern(r.0)
    &&& r.1@.map_values(|n: Next| next_key(n)) =~~= seq![(false, seq![Kw::Join])]
}

// OUTER can follow LEFT, RIGHT, or FULL
pub fn left_outer_join_rule() -> (res: Rule)
    ensures
        is_left_outer_join_rule(res),
        res.1@.map_values(|n: Next| next_key(n)) =~~= seq![(false, seq![Kw::Join])],
{
    Rule(
        chain(vec![kw(Kw::Left), kw(Kw::Outer)]),
        vec![Next::Kw(Kw::Join)],
    )
}

/// The pattern of [`right_outer_join_rule`].
pub open spec fn right_outer_join_pattern(c: Cond) -> bool {
    &&& c matches Cond::Sequence(v1)
    &&& v1@ == seq![Cond::Kw(Kw::Right), Cond::Kw(Kw::Outer)]
}

/// The rule [`right_outer_join_rule`] gives: its pattern and what it suggests.
pub open spec fn is_right_outer_join_rule(r: Rule) -> bool {
    &&& right_outer_join_pattern(r.0)
    &&& r.1@.map_values(|n: Next| next_key(n)) =~~= seq![(false, seq![Kw::Join])]
}

pub fn right_outer_join_rule() -> (res: Rule)
    ensures
        is_right_outer_join_rule(res),
        res.1@.map_values(|n: Next| next_key(n)) =~~= seq![(false, seq![Kw::Join])],
{
    Rule(
        chain(vec![kw(Kw::Right), kw(Kw::Outer)]),
        vec![Next::Kw(Kw::Join)],
    )
}

/// The pattern of [`full_outer_join_rule`].
pub open spec fn full_outer_join_pattern(c: Cond) -> bool {
    &&& c matches Cond::Sequence(v1)
    &&& v1@ == seq![Cond::Kw(Kw::Full), Cond::Kw(Kw::Outer)]
}

/// The rule [`full_outer_join_rule`] gives: its pattern and what it suggests.
pub open spec fn is_full_outer_join_rule(r: Rule) -> bool {
    &&& full_outer_join_pattern(r.0)
    &&& r.1@.map_values(|n: Next| next_key(n)) =~~= seq![(false, seq![Kw::Join])]
}

pub fn full_outer_join_rule() -> (res: Rule)
    ensures
        is_full_outer_join_rule(res),
        res.1@.map_values(|n: Next| next_key(n)) =~~= seq![(false, seq![Kw::Join])],
{
    Rule(
        chain(vec![kw(Kw::Full), kw(Kw::Outer)]),
        vec![Next::Kw(Kw::Join)],
    )
}

/// The pattern of [`natural_join_rule`].
pub open spec fn natural_join_pattern(c: Cond) -> bool {
    c == Cond::Kw(Kw::Natural)
}

/// The rule [`natural_join_rule`] gives: its pattern and what it suggests.
pub open spec fn is_natural_join_rule(r: Rule) -> bool {
    &&& natural_join_pattern(r.0)
    &&& r.1@.map_values(|n: Next| next_key(n)) =~~= seq![
                (false, seq![Kw::Join]),
                (false, seq![Kw::Inner]),
                (false, seq![Kw::Left]),
                (false, seq![Kw::Right]),
                (false, seq![Kw::Full]),
            ]
}

// NATURAL can combine with join types
pub fn natural_join_rule() -> (res: Rule)
    ensures
        is_natural_join_rule(res),
        res.1@.map_values(|n: Next| next_key(n)) =~~= seq![
            (false, seq![Kw::Join]),
            (false, seq![Kw::Inner]),
            (false, seq![Kw::Left]),
            (false, seq![Kw::Right]),
            (false, seq![Kw::Full]),
        ],
{
    Rule(
        kw(Kw::Natural),
        vec![
            Next::Kw(Kw::Join),
            Next::Kw(Kw::Inner),
            Next::Kw(Kw::Left),
            Next::Kw(Kw::Right),
            Next::Kw(Kw::Full),
        ],
    )
}

/// The pattern of [`having_rule`].
pub open spec fn having_pattern(c: Cond) -> bool {
    c == Cond::Kw(Kw::Group)
}

/// The rule [`having_rule`] gives: its pattern and what it suggests.
pub open spec fn is_having_rule(r: Rule) -> bool {
    &&& having_pattern(r.0)
    &&& r.1@.map_values(|n: Next| next_key(n)) =~~= seq![(true, seq![Kw::By])]
}

pub fn having_rule() -> (res: Rule)
    ensures
        is_having_rule(res),
        res.1@.map_values(|n: Next| next_key(n)) =~~= seq![(true, seq![Kw::By])],
{
    Rule(kw(Kw::Group), vec![Next::KwSeq(vec![Kw::By])])
}

/// The pattern of [`having_after_group_by_rule`].
pub open spec fn having_after_group_by_pattern(c: Cond) -> bool {
    &&& c matches Cond::Sequence(v1)
    &&& v1@.len() == 4
    &&& v1@[0] == Cond::Kw(Kw::Group)
    &&& v1@[1] == Cond::Kw(Kw::By)
    &&& (v1@[2] matches Cond::Many(b2) && (*b2 matches Cond::Not(b3) && (*b3 matches Cond::Any(v4) && v4@ == seq![Cond::Kw(Kw::By), Cond::Kw(Kw::Group), Cond::Kw(Kw::Order), Cond::Kw(Kw::Limit), Cond::Kw(Kw::Having), Cond::Kw(Kw::Union), Cond::Kw(Kw::Intersect), Cond::Kw(Kw::Except), Cond::Kw(Kw::Offset), Cond::Kw(Kw::Fetch)])))
    &&& is_simple_value(v1@[3])
}

/// The rule [`having_after_group_by_rule`] gives: its pattern and what it suggests.
pub open spec fn is_having_after_group_by_rule(r: Rule) -> bool {
    &&& having_after_group_by_pattern(r.0)
    &&& r.1@.map_values(|n: Next| next_key(n)) =~~= seq![(false, seq![Kw::Having])]
}

pub fn having_after_group_by_rule() -> (res: Rule)
    ensures
        is_having_after_group_by_rule(res),
        res.1@.map_values(|n: Next| next_key(n)) =~~= seq![(false, seq![Kw::Having])],
{
    Rule(
        chain(vec![
            kw(Kw::Group),
            kw(Kw::By),
            many(not(or(vec![
                kw(Kw::By),
                kw(Kw::Group),
                kw(Kw::Order),
                kw(Kw::Limit),
                kw(Kw::Having),
                kw(Kw::Union),
                kw(Kw::Intersect),
                kw(Kw::Except),
                kw(Kw::Offset),
                kw(Kw::Fetch),
            ]))),
            simple_value(),
        ]),
        vec![Next::Kw(Kw::Having)],
    )
}

/// The pattern of [`insert_into_rule`].
pub open spec fn insert_into_pattern(c: Cond) -> bool {
    c == Cond::Kw(Kw::Insert)
}

/// The rule [`insert_into_rule`] gives: its pattern and what it suggests.
pub open spec fn is_insert_into_rule(r: Rule) -> bool {
    &&& insert_into_pattern(r.0)
    &&& r.1@.map_values(|n: Next| next_key(n)) =~~= seq![(false, seq![Kw::Into])]
}

pub fn insert_into_rule() -> (res: Rule)
    ensures
        is_insert_into_rule(res),
        res.1@.map_values(|n: Next| next_key(n)) =~~= seq![(false, seq![Kw::Into])],
{
    Rule(kw(Kw::Insert), vec![Next::Kw(Kw::Into)])
}

/// The pattern of [`create_table_rule`].
pub open spec fn create_table_pattern(c: Cond) -> bool {
    c == Cond::Kw(Kw::Create)
}

/// The rule [`create_table_rule`] gives: its pattern and what it suggests.
pub open spec fn is_create_table_rule(r: Rule) -> bool {
    &&& create_table_pattern(r.0)
    &&& r.1@.map_values(|n: Next| next_key(n)) =~~= seq![
                (false, seq![Kw::Table]),
                (false, seq![Kw::View]),
                (false, seq![Kw::Schema]),
            ]
}

pub fn create_table_rule() -> (res: Rule)
    ensures
        is_create_table_rule(res),
        res.1@.map_values(|n: Next| next_key(n)) =~~= seq![
            (false, seq![Kw::Table]),
            (false, seq![Kw::View]),
            (false, seq![Kw::Schema]),
        ],
{
    Rule(
        kw(Kw::Create),
        vec![
            Next::Kw(Kw::Table),
            Next::Kw(Kw::View),
            Next::Kw(Kw::Schema),
        ],
    )
}

/// The pattern of [`primary_key_rule`].
pub open spec fn primary_key_pattern(c: Cond) -> bool {
    c == Cond::Kw(Kw::Primary)
}

/// The rule [`primary_key_rule`] gives: its pattern and what it suggests.
pub open spec fn is_primary_key_rule(r: Rule) -> bool {
    &&& primary_key_pattern(r.0)
    &&& r.1@.map_values(|n: Next| next_key(n)) =~~= seq![(true, seq![Kw::Key])]
}

pub fn primary_key_rule() -> (res: Rule)
    ensures
        is_primary_key_rule(res),
        res.1@.map_values(|n: Next| next_key(n)) =~~= seq![(true, seq![Kw::Key])],
{
    Rule(kw(Kw::Primary), vec![Next::KwSeq(vec![Kw::Key])])
}

/// The pattern of [`foreign_key_rule`].
pub open spec fn foreign_key_pattern(c: Cond) -> bool {
    c == Cond::Kw(Kw::Foreign)
}

/// The rule [`foreign_key_rule`] gives: its pattern and what it suggests.
pub open spec fn is_foreign_key_rule(r: Rule) -> bool {
    &&& foreign_key_pattern(r.0)
    &&& r.1@.map_values(|n: Next| next_key(n)) =~~= seq![(true, seq![Kw::Key])]
}

pub fn foreign_key_rule() -> (res: Rule)
    ensures
        is_foreign_key_rule(res),
        res.1@.map_values(|n: Next| next_key(n)) =~~= seq![(true, seq![Kw::Key])],
{
    Rule(kw(Kw::Foreign), vec![Next::KwSeq(vec![Kw::Key])])
}

/// The pattern of [`case_when_rule`].
pub open spec fn case_when_pattern(c: Cond) -> bool {
    c == Cond::Kw(Kw::Case)
}

/// The rule [`case_when_rule`] gives: its pattern and what it suggests.
pub open spec fn is_case_when_rule(r: Rule) -> bool {
    &&& case_when_pattern(r.0)
    &&& r.1@.map_values(|n: Next| next_key(n)) =~~= seq![(false, seq![Kw::When])]
}

// CASE statement rules
// Suggest WHEN after CASE keyword
pub fn case_when_rule() -> (res: Rule)
    ensures
        is_case_when_rule(res),
        res.1@.map_values(|n: Next| next_key(n)) =~~= seq![(false, seq![Kw::When])],
{
    Rule(kw(Kw::Case), vec![Next::Kw(Kw::When)])
}

/// The pattern of [`when_then_rule`].
pub open spec fn when_then_pattern(c: Cond) -> bool {
    &&& c matches Cond::Sequence(v1)
    &&& v1@.len() == 3
    &&& v1@[0] == Cond::Kw(Kw::When)
    &&& (v1@[1] matches Cond::Many(b2) && (*b2 matches Cond::Not(b3) && (*b3 matches Cond::Any(v4) && v4@ == seq![Cond::Kw(Kw::When), Cond::Kw(Kw::Then), Cond::Kw(Kw::Else), Cond::Kw(Kw::End)])))
    &&& is_simple_value(v1@[2])
}

/// The rule [`when_then_rule`] gives: its pattern and what it suggests.
pub open spec fn is_when_then_rule(r: Rule) -> bool {
    &&& when_then_pattern(r.0)
    &&& r.1@.map_values(|n: Next| next_key(n)) =~~= seq![(false, seq![Kw::Then])]
}

// Suggest THEN after a value following WHEN
pub fn when_then_rule() -> (res: Rule)
    ensures
        is_when_then_rule(res),
        res.1@.map_values(|n: Next| next_key(n)) =~~= seq![(false, seq![Kw::Then])],
{
    Rule(
        chain(vec![
            kw(Kw::When),
            many(not(or(vec![
                kw(Kw::When),
                kw(Kw::Then),
                kw(Kw::Else),
                kw(Kw::End),
            ]))),
            simple_value(),
        ]),
        vec![Next::Kw(Kw::Then)],
    )
}

/// The pattern of [`then_follow_rule`].
pub open spec fn then_follow_pattern(c: Cond) -> bool {
    &&& c matches Cond::Sequence(v1)
    &&& v1@.len() == 3
    &&& v1@[0] == Cond::Kw(Kw::Then)
    &&& (v1@[1] matches Cond::Many(b2) && (*b2 matches Cond::Not(b3) && (*b3 matches Cond::Any(v4) && v4@ == seq![Cond::Kw(Kw::When), Cond::Kw(Kw::Then), Cond::Kw(Kw::Else), Cond::Kw(Kw::End)])))
    &&& is_simple_value(v1@[2])
}

/// The rule [`then_follow_rule`] gives: its pattern and what it suggests.
pub open spec fn is_then_follow_rule(r: Rule) -> bool {
    &&& then_follow_pattern(r.0)
    &&& r.1@.map_values(|n: Next| next_key(n)) =~~= seq![
                (false, seq![Kw::When]),
                (false, seq![Kw::Else]),
                (false, seq![Kw::End]),
            ]
}

// Suggest WHEN, ELSE, END after a value following THEN
pub fn then_follow_rule() -> (res: Rule)
    ensures
        is_then_follow_rule(res),
        res.1@.map_values(|n: Next| next_key(n)) =~~= seq![
            (false, seq![Kw::When]),
            (false, seq![Kw::Else]),
            (false, seq![Kw::End]),
        ],
{
    Rule(
        chain(vec![
            kw(Kw::Then),
            many(not(or(vec![
                kw(Kw::When),
                kw(Kw::Then),
                kw(Kw::Else),
                kw(Kw::End),
            ]))),
            simple_value(),
        ]),
        vec![Next::Kw(Kw::When), Next::Kw(Kw::Else), Next::Kw(Kw::End)],
    )
}

/// The pattern of [`else_end_rule`].
pub open spec fn else_end_pattern(c: Cond) -> bool {
    &&& c matches Cond::Sequence(v1)
    &&& v1@.len() == 3
    &&& v1@[0] == Cond::Kw(Kw::Else)
    &&& (v1@[1] matches Cond::Many(b2) && (*b2 matches Cond::Not(b3) && (*b3 matches Cond::Any(v4) && v4@ == seq![Cond::Kw(Kw::Else), Cond::Kw(Kw::End)])))
    &&& is_simple_value(v1@[2])
}

/// The rule [`else_end_rule`] gives: its pattern and what it suggests.
pub open spec fn is_else_end_rule(r: Rule) -> bool {
    &&& else_end_pattern(r.0)
    &&& r.1@.map_values(|n: Next| next_key(n)) =~~= seq![(false, seq![Kw::End])]
}

// Suggest END after a value following ELSE
pub fn else_end_rule() -> (res: Rule)
    ensures
        is_else_end_rule(res),
        res.1@.map_values(|n: Next| next_key(n)) =~~= seq![(false, seq![Kw::End])],
{
    Rule(
        chain(vec![
            kw(Kw::Else),
            many(not(or(vec![kw(Kw::Else), kw(Kw::End)]))),
            simple_value(),
        ]),
        vec![Next::Kw(Kw::End)],
    )
}

/// The pattern of [`set_operation_all_rule`].
pub open spec fn set_operation_all_pattern(c: Cond) -> bool {
    &&& c matches Cond::Any(v1)
    &&& v1@ == seq![Cond::Kw(Kw::Union), Cond::Kw(Kw::Intersect), Cond::Kw(Kw::Except)]
}

/// The rule [`set_operation_all_rule`] gives: its pattern and what it suggests.
pub open spec fn is_set_operation_all_rule(r: Rule) -> bool {
    &&& set_operation_all_pattern(r.0)
    &&& r.1@.map_values(|n: Next| next_key(n)) =~~= seq![(true, seq![Kw::All])]
}

pub fn set_operation_all_rule() -> (res: Rule)
    ensures
        is_set_operation_all_rule(res),
        res.1@.map_values(|n: Next| next_key(n)) =~~= seq![(true, seq![Kw::All])],
{
    Rule(
        or(vec![kw(Kw::Union), kw(Kw::Intersect), kw(Kw::Except)]),
        vec![Next::KwSeq(vec![Kw::All])],
    )
}

/// The pattern of [`set_op_rule`].
pub open spec fn set_op_pattern(c: Cond) -> bool {
    &&& c matches Cond::Sequence(v1)
    &&& v1@.len() == 2
    &&& (v1@[0] matches Cond::Not(b2) && (*b2 matches Cond::Any(v3) && v3@ == seq![Cond::Kw(Kw::Select), Cond::Kw(Kw::Where), Cond::Kw(Kw::Group), Cond::Kw(Kw::Order), Cond::Kw(Kw::Having), Cond::Kw(Kw::With), Cond::Kind(Tk::Comma), Cond::Op(Op::And), Cond::Op(Op::Or), Cond::Kind(Tk::Dot)]))
    &&& is_simple_value(v1@[1])
}

/// The rule [`set_op_rule`] gives: its pattern and what it suggests.
pub open spec fn is_set_op_rule(r: Rule) -> bool {
    &&& set_op_pattern(r.0)
    &&& r.1@.map_values(|n: Next| next_key(n)) =~~= seq![
                (false, seq![Kw::Union]),
                (false, seq![Kw::Intersect]),
                (false, seq![Kw::Except]),
            ]
}

pub fn set_op_rule() -> (res: Rule)
    ensures
        is_set_op_rule(res),
        res.1@.map_values(|n: Next| next_key(n)) =~~= seq![
            (false, seq![Kw::Union]),
            (false, seq![Kw::Intersect]),
            (false, seq![Kw::Except]),
        ],
{
    Rule(
        chain(vec![
            not(or(vec![
                kw(Kw::Select),
                kw(Kw::Where),
                kw(Kw::Group),
                kw(Kw::Order),
                kw(Kw::Having),
                kw(Kw::With),
                tk(Tk::Comma),
                op(Op::And),
                op(Op::Or),
                tk(Tk::Dot),
            ])),
            simple_value(),
        ]),
        vec![
            Next::Kw(Kw::Union),
            Next::Kw(Kw::Intersect),
            Next::Kw(Kw::Except),
        ],
    )
}

// ---------------- Utility Rules ----------------
/// A value that can end an expression: a name, a closing parenthesis, a
/// number or a string.
/// A value that can end an expression, as a pattern: a choice of an
/// identifier, `)`, a number or a string.
pub open spec fn is_simple_value(c: Cond) -> bool {
    c matches Cond::Any(v) && v@ == seq![
        Cond::Kind(Tk::Identifier),
        Cond::Kind(Tk::RightParen),
        Cond::Kind(Tk::Number),
        Cond::Kind(Tk::Str),
    ]
}

pub fn simple_value() -> (res: Cond)
    ensures
        is_simple_value(res),
        res matches Cond::Any(v) && v@ == seq![
            Cond::Kind(Tk::Identifier),
            Cond::Kind(Tk::RightParen),
            Cond::Kind(Tk::Number),
            Cond::Kind(Tk::Str),
        ],
{
    or(vec![
        tk(Tk::Identifier),
        tk(Tk::RightParen),
        tk(Tk::Number),
        tk(Tk::Str),
    ])
}

/// A parenthesized group.
pub fn sub_query() -> (res: Cond)
    ensures
        res == Cond::Scoped(Box::new(Cond::Kind(Tk::LeftParen)), Box::new(Cond::Kind(Tk::RightParen))),
{
    scoped(tk(Tk::LeftParen), tk(Tk::RightParen))
}

/// Where a statement may start: the start of input, a semicolon, an opening
/// parenthesis, or the end of a `WITH` definition.
/// Where a statement may start, as a pattern: the edge of the input, `;`,
/// `(`, or `WITH ... )`.
pub open spec fn is_end_condition(c: Cond) -> bool {
    c matches Cond::Any(v) && v@.len() == 4 && v@[0] == Cond::End && v@[1] == Cond::Kind(Tk::Semicolon)
        && v@[2] == Cond::Kind(Tk::LeftParen) && (v@[3] matches Cond::Sequence(w) && w@ == seq![
        Cond::Kw(Kw::With),
        Cond::Until(Box::new(Cond::Kw(Kw::With))),
        Cond::Kind(Tk::RightParen),
    ])
}

pub fn end_condition() -> (res: Cond)
    ensures
        is_end_condition(res),
        res matches Cond::Any(v) && v@.len() == 4 && v@[0] == Cond::End && v@[1] == Cond::Kind(
            Tk::Semicolon,
        ) && v@[2] == Cond::Kind(Tk::LeftParen) && (v@[3] matches Cond::Sequence(w) && w@ == seq![
            Cond::Kw(Kw::With),
            Cond::Until(Box::new(Cond::Kw(Kw::With))),
            Cond::Kind(Tk::RightParen),
        ]),
{
    or(vec![
        end(),
        tk(Tk::Semicolon),
        tk(Tk::LeftParen),
        chain(vec![kw(Kw::With), until(kw(Kw::With)), tk(Tk::RightParen)]),
    ])
}

} // verus!
