use vstd::prelude::*;
use vstd::string::*;
use crate::lex::{Assoc, Fixity, OpTag, Operator};

verus! {

/// An operator spelling and its classification.
#[derive(Debug, Clone, Copy, PartialEq, Eq)]
pub struct OperatorEntry {
    pub symbol: &'static str,
    pub op: Operator,
}

/// The operators of the ansi dialect, in lookup order.
pub open spec fn ansi_operators() -> Seq<OperatorEntry> {
    seq![
        (OperatorEntry { symbol: "OR", op: Operator { precedence: 1u8, assoc: Assoc::Left, semantic_tag: OpTag::Or, fixity: Fixity::Infix } }),
        (OperatorEntry { symbol: "AND", op: Operator { precedence: 2u8, assoc: Assoc::Left, semantic_tag: OpTag::And, fixity: Fixity::Infix } }),
        (OperatorEntry { symbol: "NOT", op: Operator { precedence: 3u8, assoc: Assoc::Right, semantic_tag: OpTag::Not, fixity: Fixity::Prefix } }),
        (OperatorEntry { symbol: "=", op: Operator { precedence: 5u8, assoc: Assoc::NonAssoc, semantic_tag: OpTag::Eq, fixity: Fixity::Infix } }),
        (OperatorEntry { symbol: "<>", op: Operator { precedence: 5u8, assoc: Assoc::NonAssoc, semantic_tag: OpTag::Neq, fixity: Fixity::Infix } }),
        (OperatorEntry { symbol: "!=", op: Operator { precedence: 5u8, assoc: Assoc::NonAssoc, semantic_tag: OpTag::Neq, fixity: Fixity::Infix } }),
        (OperatorEntry { symbol: "<", op: Operator { precedence: 5u8, assoc: Assoc::NonAssoc, semantic_tag: OpTag::Lt, fixity: Fixity::Infix } }),
        (OperatorEntry { symbol: "<=", op: Operator { precedence: 5u8, assoc: Assoc::NonAssoc, semantic_tag: OpTag::Lte, fixity: Fixity::Infix } }),
        (OperatorEntry { symbol: ">", op: Operator { precedence: 5u8, assoc: Assoc::NonAssoc, semantic_tag: OpTag::Gt, fixity: Fixity::Infix } }),
        (OperatorEntry { symbol: ">=", op: Operator { precedence: 5u8, assoc: Assoc::NonAssoc, semantic_tag: OpTag::Gte, fixity: Fixity::Infix } }),
        (OperatorEntry { symbol: "IS", op: Operator { precedence: 6u8, assoc: Assoc::NonAssoc, semantic_tag: OpTag::Is, fixity: Fixity::Infix } }),
        (OperatorEntry { symbol: "LIKE", op: Operator { precedence: 6u8, assoc: Assoc::NonAssoc, semantic_tag: OpTag::Like, fixity: Fixity::Infix } }),
        (OperatorEntry { symbol: "IN", op: Operator { precedence: 6u8, assoc: Assoc::NonAssoc, semantic_tag: OpTag::In, fixity: Fixity::Infix } }),
        (OperatorEntry { symbol: "BETWEEN", op: Operator { precedence: 6u8, assoc: Assoc::NonAssoc, semantic_tag: OpTag::Between, fixity: Fixity::Infix } }),
        (OperatorEntry { symbol: "SIMILAR", op: Operator { precedence: 6u8, assoc: Assoc::NonAssoc, semantic_tag: OpTag::Similar, fixity: Fixity::Infix } }),
        (OperatorEntry { symbol: "OVERLAPS", op: Operator { precedence: 6u8, assoc: Assoc::NonAssoc, semantic_tag: OpTag::Overlaps, fixity: Fixity::Infix } }),
        (OperatorEntry { symbol: "EXISTS", op: Operator { precedence: 6u8, assoc: Assoc::Right, semantic_tag: OpTag::Exists, fixity: Fixity::Prefix } }),
        (OperatorEntry { symbol: "||", op: Operator { precedence: 8u8, assoc: Assoc::Left, semantic_tag: OpTag::Concat, fixity: Fixity::Infix } }),
        (OperatorEntry { symbol: "+", op: Operator { precedence: 10u8, assoc: Assoc::Left, semantic_tag: OpTag::Add, fixity: Fixity::Infix } }),
        (OperatorEntry { symbol: "-", op: Operator { precedence: 10u8, assoc: Assoc::Left, semantic_tag: OpTag::Sub, fixity: Fixity::Infix } }),
        (OperatorEntry { symbol: "*", op: Operator { precedence: 20u8, assoc: Assoc::Left, semantic_tag: OpTag::Mul, fixity: Fixity::Infix } }),
        (OperatorEntry { symbol: "/", op: Operator { precedence: 20u8, assoc: Assoc::Left, semantic_tag: OpTag::Div, fixity: Fixity::Infix } }),
        (OperatorEntry { symbol: "%", op: Operator { precedence: 20u8, assoc: Assoc::Left, semantic_tag: OpTag::Mod, fixity: Fixity::Infix } }),
    ]
}

pub(crate) fn ansi_operator_list() -> (res: Vec<OperatorEntry>)
    ensures
        res@ == ansi_operators(),
{
    let v = vec![
        (OperatorEntry { symbol: "OR", op: Operator { precedence: 1u8, assoc: Assoc::Left, semantic_tag: OpTag::Or, fixity: Fixity::Infix } }),
        (OperatorEntry { symbol: "AND", op: Operator { precedence: 2u8, assoc: Assoc::Left, semantic_tag: OpTag::And, fixity: Fixity::Infix } }),
        (OperatorEntry { symbol: "NOT", op: Operator { precedence: 3u8, assoc: Assoc::Right, semantic_tag: OpTag::Not, fixity: Fixity::Prefix } }),
        (OperatorEntry { symbol: "=", op: Operator { precedence: 5u8, assoc: Assoc::NonAssoc, semantic_tag: OpTag::Eq, fixity: Fixity::Infix } }),
        (OperatorEntry { symbol: "<>", op: Operator { precedence: 5u8, assoc: Assoc::NonAssoc, semantic_tag: OpTag::Neq, fixity: Fixity::Infix } }),
        (OperatorEntry { symbol: "!=", op: Operator { precedence: 5u8, assoc: Assoc::NonAssoc, semantic_tag: OpTag::Neq, fixity: Fixity::Infix } }),
        (OperatorEntry { symbol: "<", op: Operator { precedence: 5u8, assoc: Assoc::NonAssoc, semantic_tag: OpTag::Lt, fixity: Fixity::Infix } }),
        (OperatorEntry { symbol: "<=", op: Operator { precedence: 5u8, assoc: Assoc::NonAssoc, semantic_tag: OpTag::Lte, fixity: Fixity::Infix } }),
        (OperatorEntry { symbol: ">", op: Operator { precedence: 5u8, assoc: Assoc::NonAssoc, semantic_tag: OpTag::Gt, fixity: Fixity::Infix } }),
        (OperatorEntry { symbol: ">=", op: Operator { precedence: 5u8, assoc: Assoc::NonAssoc, semantic_tag: OpTag::Gte, fixity: Fixity::Infix } }),
        (OperatorEntry { symbol: "IS", op: Operator { precedence: 6u8, assoc: Assoc::NonAssoc, semantic_tag: OpTag::Is, fixity: Fixity::Infix } }),
        (OperatorEntry { symbol: "LIKE", op: Operator { precedence: 6u8, assoc: Assoc::NonAssoc, semantic_tag: OpTag::Like, fixity: Fixity::Infix } }),
        (OperatorEntry { symbol: "IN", op: Operator { precedence: 6u8, assoc: Assoc::NonAssoc, semantic_tag: OpTag::In, fixity: Fixity::Infix } }),
        (OperatorEntry { symbol: "BETWEEN", op: Operator { precedence: 6u8, assoc: Assoc::NonAssoc, semantic_tag: OpTag::Between, fixity: Fixity::Infix } }),
        (OperatorEntry { symbol: "SIMILAR", op: Operator { precedence: 6u8, assoc: Assoc::NonAssoc, semantic_tag: OpTag::Similar, fixity: Fixity::Infix } }),
        (OperatorEntry { symbol: "OVERLAPS", op: Operator { precedence: 6u8, assoc: Assoc::NonAssoc, semantic_tag: OpTag::Overlaps, fixity: Fixity::Infix } }),
        (OperatorEntry { symbol: "EXISTS", op: Operator { precedence: 6u8, assoc: Assoc::Right, semantic_tag: OpTag::Exists, fixity: Fixity::Prefix } }),
        (OperatorEntry { symbol: "||", op: Operator { precedence: 8u8, assoc: Assoc::Left, semantic_tag: OpTag::Concat, fixity: Fixity::Infix } }),
        (OperatorEntry { symbol: "+", op: Operator { precedence: 10u8, assoc: Assoc::Left, semantic_tag: OpTag::Add, fixity: Fixity::Infix } }),
        (OperatorEntry { symbol: "-", op: Operator { precedence: 10u8, assoc: Assoc::Left, semantic_tag: OpTag::Sub, fixity: Fixity::Infix } }),
        (OperatorEntry { symbol: "*", op: Operator { precedence: 20u8, assoc: Assoc::Left, semantic_tag: OpTag::Mul, fixity: Fixity::Infix } }),
        (OperatorEntry { symbol: "/", op: Operator { precedence: 20u8, assoc: Assoc::Left, semantic_tag: OpTag::Div, fixity: Fixity::Infix } }),
        (OperatorEntry { symbol: "%", op: Operator { precedence: 20u8, assoc: Assoc::Left, semantic_tag: OpTag::Mod, fixity: Fixity::Infix } }),
    ];
    assert(v@ =~= ansi_operators());
    v
}

/// The operators of the postgres dialect, in lookup order.
pub open spec fn postgres_operators() -> Seq<OperatorEntry> {
    seq![
        (OperatorEntry { symbol: "OR", op: Operator { precedence: 1u8, assoc: Assoc::Left, semantic_tag: OpTag::Or, fixity: Fixity::Infix } }),
        (OperatorEntry { symbol: "AND", op: Operator { precedence: 2u8, assoc: Assoc::Left, semantic_tag: OpTag::And, fixity: Fixity::Infix } }),
        (OperatorEntry { symbol: "NOT", op: Operator { precedence: 3u8, assoc: Assoc::Right, semantic_tag: OpTag::Not, fixity: Fixity::Prefix } }),
        (OperatorEntry { symbol: "=", op: Operator { precedence: 5u8, assoc: Assoc::NonAssoc, semantic_tag: OpTag::Eq, fixity: Fixity::Infix } }),
        (OperatorEntry { symbol: "<>", op: Operator { precedence: 5u8, assoc: Assoc::NonAssoc, semantic_tag: OpTag::Neq, fixity: Fixity::Infix } }),
        (OperatorEntry { symbol: "!=", op: Operator { precedence: 5u8, assoc: Assoc::NonAssoc, semantic_tag: OpTag::Neq, fixity: Fixity::Infix } }),
        (OperatorEntry { symbol: "<", op: Operator { precedence: 5u8, assoc: Assoc::NonAssoc, semantic_tag: OpTag::Lt, fixity: Fixity::Infix } }),
        (OperatorEntry { symbol: "<=", op: Operator { precedence: 5u8, assoc: Assoc::NonAssoc, semantic_tag: OpTag::Lte, fixity: Fixity::Infix } }),
        (OperatorEntry { symbol: ">", op: Operator { precedence: 5u8, assoc: Assoc::NonAssoc, semantic_tag: OpTag::Gt, fixity: Fixity::Infix } }),
        (OperatorEntry { symbol: ">=", op: Operator { precedence: 5u8, assoc: Assoc::NonAssoc, semantic_tag: OpTag::Gte, fixity: Fixity::Infix } }),
        (OperatorEntry { symbol: "IS", op: Operator { precedence: 6u8, assoc: Assoc::NonAssoc, semantic_tag: OpTag::Is, fixity: Fixity::Infix } }),
        (OperatorEntry { symbol: "LIKE", op: Operator { precedence: 6u8, assoc: Assoc::NonAssoc, semantic_tag: OpTag::Like, fixity: Fixity::Infix } }),
        (OperatorEntry { symbol: "IN", op: Operator { precedence: 6u8, assoc: Assoc::NonAssoc, semantic_tag: OpTag::In, fixity: Fixity::Infix } }),
        (OperatorEntry { symbol: "BETWEEN", op: Operator { precedence: 6u8, assoc: Assoc::NonAssoc, semantic_tag: OpTag::Between, fixity: Fixity::Infix } }),
        (OperatorEntry { symbol: "SIMILAR", op: Operator { precedence: 6u8, assoc: Assoc::NonAssoc, semantic_tag: OpTag::Similar, fixity: Fixity::Infix } }),
        (OperatorEntry { symbol: "OVERLAPS", op: Operator { precedence: 6u8, assoc: Assoc::NonAssoc, semantic_tag: OpTag::Overlaps, fixity: Fixity::Infix } }),
        (OperatorEntry { symbol: "EXISTS", op: Operator { precedence: 6u8, assoc: Assoc::Right, semantic_tag: OpTag::Exists, fixity: Fixity::Prefix } }),
        (OperatorEntry { symbol: "||", op: Operator { precedence: 8u8, assoc: Assoc::Left, semantic_tag: OpTag::Concat, fixity: Fixity::Infix } }),
        (OperatorEntry { symbol: "+", op: Operator { precedence: 10u8, assoc: Assoc::Left, semantic_tag: OpTag::Add, fixity: Fixity::Infix } }),
        (OperatorEntry { symbol: "-", op: Operator { precedence: 10u8, assoc: Assoc::Left, semantic_tag: OpTag::Sub, fixity: Fixity::Infix } }),
        (OperatorEntry { symbol: "*", op: Operator { precedence: 20u8, assoc: Assoc::Left, semantic_tag: OpTag::Mul, fixity: Fixity::Infix } }),
        (OperatorEntry { symbol: "/", op: Operator { precedence: 20u8, assoc: Assoc::Left, semantic_tag: OpTag::Div, fixity: Fixity::Infix } }),
        (OperatorEntry { symbol: "%", op: Operator { precedence: 20u8, assoc: Assoc::Left, semantic_tag: OpTag::Mod, fixity: Fixity::Infix } }),
        (OperatorEntry { symbol: "ILIKE", op: Operator { precedence: 6u8, assoc: Assoc::NonAssoc, semantic_tag: OpTag::Ilike, fixity: Fixity::Infix } }),
        (OperatorEntry { symbol: "~", op: Operator { precedence: 6u8, assoc: Assoc::NonAssoc, semantic_tag: OpTag::Regex, fixity: Fixity::Infix } }),
        (OperatorEntry { symbol: "~*", op: Operator { precedence: 6u8, assoc: Assoc::NonAssoc, semantic_tag: OpTag::RegexI, fixity: Fixity::Infix } }),
        (OperatorEntry { symbol: "!~", op: Operator { precedence: 6u8, assoc: Assoc::NonAssoc, semantic_tag: OpTag::NotRegex, fixity: Fixity::Infix } }),
        (OperatorEntry { symbol: "!~*", op: Operator { precedence: 6u8, assoc: Assoc::NonAssoc, semantic_tag: OpTag::NotRegexI, fixity: Fixity::Infix } }),
        (OperatorEntry { symbol: "&", op: Operator { precedence: 12u8, assoc: Assoc::Left, semantic_tag: OpTag::BitAnd, fixity: Fixity::Infix } }),
        (OperatorEntry { symbol: "|", op: Operator { precedence: 12u8, assoc: Assoc::Left, semantic_tag: OpTag::BitOr, fixity: Fixity::Infix } }),
        (OperatorEntry { symbol: "#", op: Operator { precedence: 12u8, assoc: Assoc::Left, semantic_tag: OpTag::BitXor, fixity: Fixity::Infix } }),
        (OperatorEntry { symbol: "<<", op: Operator { precedence: 12u8, assoc: Assoc::Left, semantic_tag: OpTag::Shl, fixity: Fixity::Infix } }),
        (OperatorEntry { symbol: ">>", op: Operator { precedence: 12u8, assoc: Assoc::Left, semantic_tag: OpTag::Shr, fixity: Fixity::Infix } }),
        (OperatorEntry { symbol: "^", op: Operator { precedence: 22u8, assoc: Assoc::Left, semantic_tag: OpTag::Exp, fixity: Fixity::Infix } }),
        (OperatorEntry { symbol: "->", op: Operator { precedence: 25u8, assoc: Assoc::Left, semantic_tag: OpTag::JsonGet, fixity: Fixity::Infix } }),
        (OperatorEntry { symbol: "->>", op: Operator { precedence: 25u8, assoc: Assoc::Left, semantic_tag: OpTag::JsonGetText, fixity: Fixity::Infix } }),
        (OperatorEntry { symbol: "#>", op: Operator { precedence: 25u8, assoc: Assoc::Left, semantic_tag: OpTag::JsonPath, fixity: Fixity::Infix } }),
        (OperatorEntry { symbol: "#>>", op: Operator { precedence: 25u8, assoc: Assoc::Left, semantic_tag: OpTag::JsonPathText, fixity: Fixity::Infix } }),
        (OperatorEntry { symbol: "?", op: Operator { precedence: 6u8, assoc: Assoc::NonAssoc, semantic_tag: OpTag::JsonKeyExists, fixity: Fixity::Infix } }),
        (OperatorEntry { symbol: "?|", op: Operator { precedence: 6u8, assoc: Assoc::NonAssoc, semantic_tag: OpTag::JsonAnyKey, fixity: Fixity::Infix } }),
        (OperatorEntry { symbol: "?&", op: Operator { precedence: 6u8, assoc: Assoc::NonAssoc, semantic_tag: OpTag::JsonAllKeys, fixity: Fixity::Infix } }),
        (OperatorEntry { symbol: "@?", op: Operator { precedence: 6u8, assoc: Assoc::NonAssoc, semantic_tag: OpTag::JsonPathBool, fixity: Fixity::Infix } }),
        (OperatorEntry { symbol: "@@", op: Operator { precedence: 6u8, assoc: Assoc::NonAssoc, semantic_tag: OpTag::JsonPathMatch, fixity: Fixity::Infix } }),
        (OperatorEntry { symbol: "@>", op: Operator { precedence: 6u8, assoc: Assoc::NonAssoc, semantic_tag: OpTag::Contains, fixity: Fixity::Infix } }),
        (OperatorEntry { symbol: "<@", op: Operator { precedence: 6u8, assoc: Assoc::NonAssoc, semantic_tag: OpTag::ContainedBy, fixity: Fixity::Infix } }),
        (OperatorEntry { symbol: "&&", op: Operator { precedence: 6u8, assoc: Assoc::NonAssoc, semantic_tag: OpTag::Overlap, fixity: Fixity::Infix } }),
        (OperatorEntry { symbol: "::", op: Operator { precedence: 30u8, assoc: Assoc::Left, semantic_tag: OpTag::TypeCast, fixity: Fixity::Infix } }),
    ]
}

pub(crate) fn postgres_operator_list() -> (res: Vec<OperatorEntry>)
    ensures
        res@ == postgres_operators(),
{
    let v = vec![
        (OperatorEntry { symbol: "OR", op: Operator { precedence: 1u8, assoc: Assoc::Left, semantic_tag: OpTag::Or, fixity: Fixity::Infix } }),
        (OperatorEntry { symbol: "AND", op: Operator { precedence: 2u8, assoc: Assoc::Left, semantic_tag: OpTag::And, fixity: Fixity::Infix } }),
        (OperatorEntry { symbol: "NOT", op: Operator { precedence: 3u8, assoc: Assoc::Right, semantic_tag: OpTag::Not, fixity: Fixity::Prefix } }),
        (OperatorEntry { symbol: "=", op: Operator { precedence: 5u8, assoc: Assoc::NonAssoc, semantic_tag: OpTag::Eq, fixity: Fixity::Infix } }),
        (OperatorEntry { symbol: "<>", op: Operator { precedence: 5u8, assoc: Assoc::NonAssoc, semantic_tag: OpTag::Neq, fixity: Fixity::Infix } }),
        (OperatorEntry { symbol: "!=", op: Operator { precedence: 5u8, assoc: Assoc::NonAssoc, semantic_tag: OpTag::Neq, fixity: Fixity::Infix } }),
        (OperatorEntry { symbol: "<", op: Operator { precedence: 5u8, assoc: Assoc::NonAssoc, semantic_tag: OpTag::Lt, fixity: Fixity::Infix } }),
        (OperatorEntry { symbol: "<=", op: Operator { precedence: 5u8, assoc: Assoc::NonAssoc, semantic_tag: OpTag::Lte, fixity: Fixity::Infix } }),
        (OperatorEntry { symbol: ">", op: Operator { precedence: 5u8, assoc: Assoc::NonAssoc, semantic_tag: OpTag::Gt, fixity: Fixity::Infix } }),
        (OperatorEntry { symbol: ">=", op: Operator { precedence: 5u8, assoc: Assoc::NonAssoc, semantic_tag: OpTag::Gte, fixity: Fixity::Infix } }),
        (OperatorEntry { symbol: "IS", op: Operator { precedence: 6u8, assoc: Assoc::NonAssoc, semantic_tag: OpTag::Is, fixity: Fixity::Infix } }),
        (OperatorEntry { symbol: "LIKE", op: Operator { precedence: 6u8, assoc: Assoc::NonAssoc, semantic_tag: OpTag::Like, fixity: Fixity::Infix } }),
        (OperatorEntry { symbol: "IN", op: Operator { precedence: 6u8, assoc: Assoc::NonAssoc, semantic_tag: OpTag::In, fixity: Fixity::Infix } }),
        (OperatorEntry { symbol: "BETWEEN", op: Operator { precedence: 6u8, assoc: Assoc::NonAssoc, semantic_tag: OpTag::Between, fixity: Fixity::Infix } }),
        (OperatorEntry { symbol: "SIMILAR", op: Operator { precedence: 6u8, assoc: Assoc::NonAssoc, semantic_tag: OpTag::Similar, fixity: Fixity::Infix } }),
        (OperatorEntry { symbol: "OVERLAPS", op: Operator { precedence: 6u8, assoc: Assoc::NonAssoc, semantic_tag: OpTag::Overlaps, fixity: Fixity::Infix } }),
        (OperatorEntry { symbol: "EXISTS", op: Operator { precedence: 6u8, assoc: Assoc::Right, semantic_tag: OpTag::Exists, fixity: Fixity::Prefix } }),
        (OperatorEntry { symbol: "||", op: Operator { precedence: 8u8, assoc: Assoc::Left, semantic_tag: OpTag::Concat, fixity: Fixity::Infix } }),
        (OperatorEntry { symbol: "+", op: Operator { precedence: 10u8, assoc: Assoc::Left, semantic_tag: OpTag::Add, fixity: Fixity::Infix } }),
        (OperatorEntry { symbol: "-", op: Operator { precedence: 10u8, assoc: Assoc::Left, semantic_tag: OpTag::Sub, fixity: Fixity::Infix } }),
        (OperatorEntry { symbol: "*", op: Operator { precedence: 20u8, assoc: Assoc::Left, semantic_tag: OpTag::Mul, fixity: Fixity::Infix } }),
        (OperatorEntry { symbol: "/", op: Operator { precedence: 20u8, assoc: Assoc::Left, semantic_tag: OpTag::Div, fixity: Fixity::Infix } }),
        (OperatorEntry { symbol: "%", op: Operator { precedence: 20u8, assoc: Assoc::Left, semantic_tag: OpTag::Mod, fixity: Fixity::Infix } }),
        (OperatorEntry { symbol: "ILIKE", op: Operator { precedence: 6u8, assoc: Assoc::NonAssoc, semantic_tag: OpTag::Ilike, fixity: Fixity::Infix } }),
        (OperatorEntry { symbol: "~", op: Operator { precedence: 6u8, assoc: Assoc::NonAssoc, semantic_tag: OpTag::Regex, fixity: Fixity::Infix } }),
        (OperatorEntry { symbol: "~*", op: Operator { precedence: 6u8, assoc: Assoc::NonAssoc, semantic_tag: OpTag::RegexI, fixity: Fixity::Infix } }),
        (OperatorEntry { symbol: "!~", op: Operator { precedence: 6u8, assoc: Assoc::NonAssoc, semantic_tag: OpTag::NotRegex, fixity: Fixity::Infix } }),
        (OperatorEntry { symbol: "!~*", op: Operator { precedence: 6u8, assoc: Assoc::NonAssoc, semantic_tag: OpTag::NotRegexI, fixity: Fixity::Infix } }),
        (OperatorEntry { symbol: "&", op: Operator { precedence: 12u8, assoc: Assoc::Left, semantic_tag: OpTag::BitAnd, fixity: Fixity::Infix } }),
        (OperatorEntry { symbol: "|", op: Operator { precedence: 12u8, assoc: Assoc::Left, semantic_tag: OpTag::BitOr, fixity: Fixity::Infix } }),
        (OperatorEntry { symbol: "#", op: Operator { precedence: 12u8, assoc: Assoc::Left, semantic_tag: OpTag::BitXor, fixity: Fixity::Infix } }),
        (OperatorEntry { symbol: "<<", op: Operator { precedence: 12u8, assoc: Assoc::Left, semantic_tag: OpTag::Shl, fixity: Fixity::Infix } }),
        (OperatorEntry { symbol: ">>", op: Operator { precedence: 12u8, assoc: Assoc::Left, semantic_tag: OpTag::Shr, fixity: Fixity::Infix } }),
        (OperatorEntry { symbol: "^", op: Operator { precedence: 22u8, assoc: Assoc::Left, semantic_tag: OpTag::Exp, fixity: Fixity::Infix } }),
        (OperatorEntry { symbol: "->", op: Operator { precedence: 25u8, assoc: Assoc::Left, semantic_tag: OpTag::JsonGet, fixity: Fixity::Infix } }),
        (OperatorEntry { symbol: "->>", op: Operator { precedence: 25u8, assoc: Assoc::Left, semantic_tag: OpTag::JsonGetText, fixity: Fixity::Infix } }),
        (OperatorEntry { symbol: "#>", op: Operator { precedence: 25u8, assoc: Assoc::Left, semantic_tag: OpTag::JsonPath, fixity: Fixity::Infix } }),
        (OperatorEntry { symbol: "#>>", op: Operator { precedence: 25u8, assoc: Assoc::Left, semantic_tag: OpTag::JsonPathText, fixity: Fixity::Infix } }),
        (OperatorEntry { symbol: "?", op: Operator { precedence: 6u8, assoc: Assoc::NonAssoc, semantic_tag: OpTag::JsonKeyExists, fixity: Fixity::Infix } }),
        (OperatorEntry { symbol: "?|", op: Operator { precedence: 6u8, assoc: Assoc::NonAssoc, semantic_tag: OpTag::JsonAnyKey, fixity: Fixity::Infix } }),
        (OperatorEntry { symbol: "?&", op: Operator { precedence: 6u8, assoc: Assoc::NonAssoc, semantic_tag: OpTag::JsonAllKeys, fixity: Fixity::Infix } }),
        (OperatorEntry { symbol: "@?", op: Operator { precedence: 6u8, assoc: Assoc::NonAssoc, semantic_tag: OpTag::JsonPathBool, fixity: Fixity::Infix } }),
        (OperatorEntry { symbol: "@@", op: Operator { precedence: 6u8, assoc: Assoc::NonAssoc, semantic_tag: OpTag::JsonPathMatch, fixity: Fixity::Infix } }),
        (OperatorEntry { symbol: "@>", op: Operator { precedence: 6u8, assoc: Assoc::NonAssoc, semantic_tag: OpTag::Contains, fixity: Fixity::Infix } }),
        (OperatorEntry { symbol: "<@", op: Operator { precedence: 6u8, assoc: Assoc::NonAssoc, semantic_tag: OpTag::ContainedBy, fixity: Fixity::Infix } }),
        (OperatorEntry { symbol: "&&", op: Operator { precedence: 6u8, assoc: Assoc::NonAssoc, semantic_tag: OpTag::Overlap, fixity: Fixity::Infix } }),
        (OperatorEntry { symbol: "::", op: Operator { precedence: 30u8, assoc: Assoc::Left, semantic_tag: OpTag::TypeCast, fixity: Fixity::Infix } }),
    ];
    assert(v@ =~= postgres_operators());
    v
}

/// The operators of the sqlite dialect, in lookup order.
pub open spec fn sqlite_operators() -> Seq<OperatorEntry> {
    seq![
        (OperatorEntry { symbol: "OR", op: Operator { precedence: 1u8, assoc: Assoc::Left, semantic_tag: OpTag::Or, fixity: Fixity::Infix } }),
        (OperatorEntry { symbol: "AND", op: Operator { precedence: 2u8, assoc: Assoc::Left, semantic_tag: OpTag::And, fixity: Fixity::Infix } }),
        (OperatorEntry { symbol: "NOT", op: Operator { precedence: 3u8, assoc: Assoc::Right, semantic_tag: OpTag::Not, fixity: Fixity::Prefix } }),
        (OperatorEntry { symbol: "=", op: Operator { precedence: 5u8, assoc: Assoc::NonAssoc, semantic_tag: OpTag::Eq, fixity: Fixity::Infix } }),
        (OperatorEntry { symbol: "<>", op: Operator { precedence: 5u8, assoc: Assoc::NonAssoc, semantic_tag: OpTag::Neq, fixity: Fixity::Infix } }),
        (OperatorEntry { symbol: "!=", op: Operator { precedence: 5u8, assoc: Assoc::NonAssoc, semantic_tag: OpTag::Neq, fixity: Fixity::Infix } }),
        (OperatorEntry { symbol: "<", op: Operator { precedence: 5u8, assoc: Assoc::NonAssoc, semantic_tag: OpTag::Lt, fixity: Fixity::Infix } }),
        (OperatorEntry { symbol: "<=", op: Operator { precedence: 5u8, assoc: Assoc::NonAssoc, semantic_tag: OpTag::Lte, fixity: Fixity::Infix } }),
        (OperatorEntry { symbol: ">", op: Operator { precedence: 5u8, assoc: Assoc::NonAssoc, semantic_tag: OpTag::Gt, fixity: Fixity::Infix } }),
        (OperatorEntry { symbol: ">=", op: Operator { precedence: 5u8, assoc: Assoc::NonAssoc, semantic_tag: OpTag::Gte, fixity: Fixity::Infix } }),
        (OperatorEntry { symbol: "IS", op: Operator { precedence: 6u8, assoc: Assoc::NonAssoc, semantic_tag: OpTag::Is, fixity: Fixity::Infix } }),
        (OperatorEntry { symbol: "LIKE", op: Operator { precedence: 6u8, assoc: Assoc::NonAssoc, semantic_tag: OpTag::Like, fixity: Fixity::Infix } }),
        (OperatorEntry { symbol: "IN", op: Operator { precedence: 6u8, assoc: Assoc::NonAssoc, semantic_tag: OpTag::In, fixity: Fixity::Infix } }),
        (OperatorEntry { symbol: "BETWEEN", op: Operator { precedence: 6u8, assoc: Assoc::NonAssoc, semantic_tag: OpTag::Between, fixity: Fixity::Infix } }),
        (OperatorEntry { symbol: "SIMILAR", op: Operator { precedence: 6u8, assoc: Assoc::NonAssoc, semantic_tag: OpTag::Similar, fixity: Fixity::Infix } }),
        (OperatorEntry { symbol: "OVERLAPS", op: Operator { precedence: 6u8, assoc: Assoc::NonAssoc, semantic_tag: OpTag::Overlaps, fixity: Fixity::Infix } }),
        (OperatorEntry { symbol: "EXISTS", op: Operator { precedence: 6u8, assoc: Assoc::Right, semantic_tag: OpTag::Exists, fixity: Fixity::Prefix } }),
        (OperatorEntry { symbol: "||", op: Operator { precedence: 8u8, assoc: Assoc::Left, semantic_tag: OpTag::Concat, fixity: Fixity::Infix } }),
        (OperatorEntry { symbol: "+", op: Operator { precedence: 10u8, assoc: Assoc::Left, semantic_tag: OpTag::Add, fixity: Fixity::Infix } }),
        (OperatorEntry { symbol: "-", op: Operator { precedence: 10u8, assoc: Assoc::Left, semantic_tag: OpTag::Sub, fixity: Fixity::Infix } }),
        (OperatorEntry { symbol: "*", op: Operator { precedence: 20u8, assoc: Assoc::Left, semantic_tag: OpTag::Mul, fixity: Fixity::Infix } }),
        (OperatorEntry { symbol: "/", op: Operator { precedence: 20u8, assoc: Assoc::Left, semantic_tag: OpTag::Div, fixity: Fixity::Infix } }),
        (OperatorEntry { symbol: "%", op: Operator { precedence: 20u8, assoc: Assoc::Left, semantic_tag: OpTag::Mod, fixity: Fixity::Infix } }),
        (OperatorEntry { symbol: "==", op: Operator { precedence: 5u8, assoc: Assoc::NonAssoc, semantic_tag: OpTag::Eq, fixity: Fixity::Infix } }),
        (OperatorEntry { symbol: "&", op: Operator { precedence: 12u8, assoc: Assoc::Left, semantic_tag: OpTag::BitAnd, fixity: Fixity::Infix } }),
        (OperatorEntry { symbol: "|", op: Operator { precedence: 12u8, assoc: Assoc::Left, semantic_tag: OpTag::BitOr, fixity: Fixity::Infix } }),
        (OperatorEntry { symbol: "<<", op: Operator { precedence: 12u8, assoc: Assoc::Left, semantic_tag: OpTag::Shl, fixity: Fixity::Infix } }),
        (OperatorEntry { symbol: ">>", op: Operator { precedence: 12u8, assoc: Assoc::Left, semantic_tag: OpTag::Shr, fixity: Fixity::Infix } }),
    ]
}

pub(crate) fn sqlite_operator_list() -> (res: Vec<OperatorEntry>)
    ensures
        res@ == sqlite_operators(),
{
    let v = vec![
        (OperatorEntry { symbol: "OR", op: Operator { precedence: 1u8, assoc: Assoc::Left, semantic_tag: OpTag::Or, fixity: Fixity::Infix } }),
        (OperatorEntry { symbol: "AND", op: Operator { precedence: 2u8, assoc: Assoc::Left, semantic_tag: OpTag::And, fixity: Fixity::Infix } }),
        (OperatorEntry { symbol: "NOT", op: Operator { precedence: 3u8, assoc: Assoc::Right, semantic_tag: OpTag::Not, fixity: Fixity::Prefix } }),
        (OperatorEntry { symbol: "=", op: Operator { precedence: 5u8, assoc: Assoc::NonAssoc, semantic_tag: OpTag::Eq, fixity: Fixity::Infix } }),
        (OperatorEntry { symbol: "<>", op: Operator { precedence: 5u8, assoc: Assoc::NonAssoc, semantic_tag: OpTag::Neq, fixity: Fixity::Infix } }),
        (OperatorEntry { symbol: "!=", op: Operator { precedence: 5u8, assoc: Assoc::NonAssoc, semantic_tag: OpTag::Neq, fixity: Fixity::Infix } }),
        (OperatorEntry { symbol: "<", op: Operator { precedence: 5u8, assoc: Assoc::NonAssoc, semantic_tag: OpTag::Lt, fixity: Fixity::Infix } }),
        (OperatorEntry { symbol: "<=", op: Operator { precedence: 5u8, assoc: Assoc::NonAssoc, semantic_tag: OpTag::Lte, fixity: Fixity::Infix } }),
        (OperatorEntry { symbol: ">", op: Operator { precedence: 5u8, assoc: Assoc::NonAssoc, semantic_tag: OpTag::Gt, fixity: Fixity::Infix } }),
        (OperatorEntry { symbol: ">=", op: Operator { precedence: 5u8, assoc: Assoc::NonAssoc, semantic_tag: OpTag::Gte, fixity: Fixity::Infix } }),
        (OperatorEntry { symbol: "IS", op: Operator { precedence: 6u8, assoc: Assoc::NonAssoc, semantic_tag: OpTag::Is, fixity: Fixity::Infix } }),
        (OperatorEntry { symbol: "LIKE", op: Operator { precedence: 6u8, assoc: Assoc::NonAssoc, semantic_tag: OpTag::Like, fixity: Fixity::Infix } }),
        (OperatorEntry { symbol: "IN", op: Operator { precedence: 6u8, assoc: Assoc::NonAssoc, semantic_tag: OpTag::In, fixity: Fixity::Infix } }),
        (OperatorEntry { symbol: "BETWEEN", op: Operator { precedence: 6u8, assoc: Assoc::NonAssoc, semantic_tag: OpTag::Between, fixity: Fixity::Infix } }),
        (OperatorEntry { symbol: "SIMILAR", op: Operator { precedence: 6u8, assoc: Assoc::NonAssoc, semantic_tag: OpTag::Similar, fixity: Fixity::Infix } }),
        (OperatorEntry { symbol: "OVERLAPS", op: Operator { precedence: 6u8, assoc: Assoc::NonAssoc, semantic_tag: OpTag::Overlaps, fixity: Fixity::Infix } }),
        (OperatorEntry { symbol: "EXISTS", op: Operator { precedence: 6u8, assoc: Assoc::Right, semantic_tag: OpTag::Exists, fixity: Fixity::Prefix } }),
        (OperatorEntry { symbol: "||", op: Operator { precedence: 8u8, assoc: Assoc::Left, semantic_tag: OpTag::Concat, fixity: Fixity::Infix } }),
        (OperatorEntry { symbol: "+", op: Operator { precedence: 10u8, assoc: Assoc::Left, semantic_tag: OpTag::Add, fixity: Fixity::Infix } }),
        (OperatorEntry { symbol: "-", op: Operator { precedence: 10u8, assoc: Assoc::Left, semantic_tag: OpTag::Sub, fixity: Fixity::Infix } }),
        (OperatorEntry { symbol: "*", op: Operator { precedence: 20u8, assoc: Assoc::Left, semantic_tag: OpTag::Mul, fixity: Fixity::Infix } }),
        (OperatorEntry { symbol: "/", op: Operator { precedence: 20u8, assoc: Assoc::Left, semantic_tag: OpTag::Div, fixity: Fixity::Infix } }),
        (OperatorEntry { symbol: "%", op: Operator { precedence: 20u8, assoc: Assoc::Left, semantic_tag: OpTag::Mod, fixity: Fixity::Infix } }),
        (OperatorEntry { symbol: "==", op: Operator { precedence: 5u8, assoc: Assoc::NonAssoc, semantic_tag: OpTag::Eq, fixity: Fixity::Infix } }),
        (OperatorEntry { symbol: "&", op: Operator { precedence: 12u8, assoc: Assoc::Left, semantic_tag: OpTag::BitAnd, fixity: Fixity::Infix } }),
        (OperatorEntry { symbol: "|", op: Operator { precedence: 12u8, assoc: Assoc::Left, semantic_tag: OpTag::BitOr, fixity: Fixity::Infix } }),
        (OperatorEntry { symbol: "<<", op: Operator { precedence: 12u8, assoc: Assoc::Left, semantic_tag: OpTag::Shl, fixity: Fixity::Infix } }),
        (OperatorEntry { symbol: ">>", op: Operator { precedence: 12u8, assoc: Assoc::Left, semantic_tag: OpTag::Shr, fixity: Fixity::Infix } }),
    ];
    assert(v@ =~= sqlite_operators());
    v
}

} // verus!
