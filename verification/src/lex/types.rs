use vstd::prelude::*;
use vstd::string::*;
use vstd::utf8::*;
use crate::span::Span;
use crate::text::{lemma_safe_after_ascii, lemma_str_valid, safe_pos, substring_safe};

verus! {

/// SQL keywords recognised by the dialects.
#[derive(Debug, Clone, Copy, PartialEq, Eq, Hash, Structural)]
pub enum Keyword {
    All,
    Alter,
    Any,
    Array,
    As,
    Asc,
    At,
    By,
    Case,
    Cast,
    Create,
    Cross,
    Cube,
    Current,
    Date,
    Default,
    Delete,
    Desc,
    Distinct,
    Drop,
    Else,
    End,
    Escape,
    Except,
    False,
    Fetch,
    Filter,
    First,
    Following,
    Foreign,
    From,
    Full,
    Group,
    Grouping,
    Having,
    Inner,
    Insert,
    Intersect,
    Interval,
    Into,
    Join,
    Key,
    Last,
    Lateral,
    Left,
    Limit,
    Materialized,
    Merge,
    Minus,
    Natural,
    Null,
    Nulls,
    Offset,
    On,
    Only,
    Order,
    Outer,
    Over,
    Partition,
    Preceding,
    Primary,
    Range,
    Recursive,
    Returning,
    Right,
    Rollup,
    Row,
    Rows,
    Schema,
    Select,
    SetKw,
    Sets,
    SomeKw,
    Table,
    Then,
    Time,
    Timestamp,
    To,
    True,
    Unbounded,
    Union,
    Unknown,
    Update,
    Using,
    Values,
    View,
    When,
    Where,
    Window,
    With,
    Zone,
}

impl Keyword {
    /// The upper-case spelling of the keyword.
    #[verifier::allow_in_spec]
    pub fn name(&self) -> &'static str
        returns
            match self {
                Keyword::All => "ALL",
                Keyword::Alter => "ALTER",
                Keyword::Any => "ANY",
                Keyword::Array => "ARRAY",
                Keyword::As => "AS",
                Keyword::Asc => "ASC",
                Keyword::At => "AT",
                Keyword::By => "BY",
                Keyword::Case => "CASE",
                Keyword::Cast => "CAST",
                Keyword::Create => "CREATE",
                Keyword::Cross => "CROSS",
                Keyword::Cube => "CUBE",
                Keyword::Current => "CURRENT",
                Keyword::Date => "DATE",
                Keyword::Default => "DEFAULT",
                Keyword::Delete => "DELETE",
                Keyword::Desc => "DESC",
                Keyword::Distinct => "DISTINCT",
                Keyword::Drop => "DROP",
                Keyword::Else => "ELSE",
                Keyword::End => "END",
                Keyword::Escape => "ESCAPE",
                Keyword::Except => "EXCEPT",
                Keyword::False => "FALSE",
                Keyword::Fetch => "FETCH",
                Keyword::Filter => "FILTER",
                Keyword::First => "FIRST",
                Keyword::Following => "FOLLOWING",
                Keyword::Foreign => "FOREIGN",
                Keyword::From => "FROM",
                Keyword::Full => "FULL",
                Keyword::Group => "GROUP",
                Keyword::Grouping => "GROUPING",
                Keyword::Having => "HAVING",
                Keyword::Inner => "INNER",
                Keyword::Insert => "INSERT",
                Keyword::Intersect => "INTERSECT",
                Keyword::Interval => "INTERVAL",
                Keyword::Into => "INTO",
                Keyword::Join => "JOIN",
                Keyword::Key => "KEY",
                Keyword::Last => "LAST",
                Keyword::Lateral => "LATERAL",
                Keyword::Left => "LEFT",
                Keyword::Limit => "LIMIT",
                Keyword::Materialized => "MATERIALIZED",
                Keyword::Merge => "MERGE",
                Keyword::Minus => "MINUS",
                Keyword::Natural => "NATURAL",
                Keyword::Null => "NULL",
                Keyword::Nulls => "NULLS",
                Keyword::Offset => "OFFSET",
                Keyword::On => "ON",
                Keyword::Only => "ONLY",
                Keyword::Order => "ORDER",
                Keyword::Outer => "OUTER",
                Keyword::Over => "OVER",
                Keyword::Partition => "PARTITION",
                Keyword::Preceding => "PRECEDING",
                Keyword::Primary => "PRIMARY",
                Keyword::Range => "RANGE",
                Keyword::Recursive => "RECURSIVE",
                Keyword::Returning => "RETURNING",
                Keyword::Right => "RIGHT",
                Keyword::Rollup => "ROLLUP",
                Keyword::Row => "ROW",
                Keyword::Rows => "ROWS",
                Keyword::Schema => "SCHEMA",
                Keyword::Select => "SELECT",
                Keyword::SetKw => "SET",
                Keyword::Sets => "SETS",
                Keyword::SomeKw => "SOME",
                Keyword::Table => "TABLE",
                Keyword::Then => "THEN",
                Keyword::Time => "TIME",
                Keyword::Timestamp => "TIMESTAMP",
                Keyword::To => "TO",
                Keyword::True => "TRUE",
                Keyword::Unbounded => "UNBOUNDED",
                Keyword::Union => "UNION",
                Keyword::Unknown => "UNKNOWN",
                Keyword::Update => "UPDATE",
                Keyword::Using => "USING",
                Keyword::Values => "VALUES",
                Keyword::View => "VIEW",
                Keyword::When => "WHEN",
                Keyword::Where => "WHERE",
                Keyword::Window => "WINDOW",
                Keyword::With => "WITH",
                Keyword::Zone => "ZONE",
            },
    {
        match self {
            Keyword::All => "ALL",
            Keyword::Alter => "ALTER",
            Keyword::Any => "ANY",
            Keyword::Array => "ARRAY",
            Keyword::As => "AS",
            Keyword::Asc => "ASC",
            Keyword::At => "AT",
            Keyword::By => "BY",
            Keyword::Case => "CASE",
            Keyword::Cast => "CAST",
            Keyword::Create => "CREATE",
            Keyword::Cross => "CROSS",
            Keyword::Cube => "CUBE",
            Keyword::Current => "CURRENT",
            Keyword::Date => "DATE",
            Keyword::Default => "DEFAULT",
            Keyword::Delete => "DELETE",
            Keyword::Desc => "DESC",
            Keyword::Distinct => "DISTINCT",
            Keyword::Drop => "DROP",
            Keyword::Else => "ELSE",
            Keyword::End => "END",
            Keyword::Escape => "ESCAPE",
            Keyword::Except => "EXCEPT",
            Keyword::False => "FALSE",
            Keyword::Fetch => "FETCH",
            Keyword::Filter => "FILTER",
            Keyword::First => "FIRST",
            Keyword::Following => "FOLLOWING",
            Keyword::Foreign => "FOREIGN",
            Keyword::From => "FROM",
            Keyword::Full => "FULL",
            Keyword::Group => "GROUP",
            Keyword::Grouping => "GROUPING",
            Keyword::Having => "HAVING",
            Keyword::Inner => "INNER",
            Keyword::Insert => "INSERT",
            Keyword::Intersect => "INTERSECT",
            Keyword::Interval => "INTERVAL",
            Keyword::Into => "INTO",
            Keyword::Join => "JOIN",
            Keyword::Key => "KEY",
            Keyword::Last => "LAST",
            Keyword::Lateral => "LATERAL",
            Keyword::Left => "LEFT",
            Keyword::Limit => "LIMIT",
            Keyword::Materialized => "MATERIALIZED",
            Keyword::Merge => "MERGE",
            Keyword::Minus => "MINUS",
            Keyword::Natural => "NATURAL",
            Keyword::Null => "NULL",
            Keyword::Nulls => "NULLS",
            Keyword::Offset => "OFFSET",
            Keyword::On => "ON",
            Keyword::Only => "ONLY",
            Keyword::Order => "ORDER",
            Keyword::Outer => "OUTER",
            Keyword::Over => "OVER",
            Keyword::Partition => "PARTITION",
            Keyword::Preceding => "PRECEDING",
            Keyword::Primary => "PRIMARY",
            Keyword::Range => "RANGE",
            Keyword::Recursive => "RECURSIVE",
            Keyword::Returning => "RETURNING",
            Keyword::Right => "RIGHT",
            Keyword::Rollup => "ROLLUP",
            Keyword::Row => "ROW",
            Keyword::Rows => "ROWS",
            Keyword::Schema => "SCHEMA",
            Keyword::Select => "SELECT",
            Keyword::SetKw => "SET",
            Keyword::Sets => "SETS",
            Keyword::SomeKw => "SOME",
            Keyword::Table => "TABLE",
            Keyword::Then => "THEN",
            Keyword::Time => "TIME",
            Keyword::Timestamp => "TIMESTAMP",
            Keyword::To => "TO",
            Keyword::True => "TRUE",
            Keyword::Unbounded => "UNBOUNDED",
            Keyword::Union => "UNION",
            Keyword::Unknown => "UNKNOWN",
            Keyword::Update => "UPDATE",
            Keyword::Using => "USING",
            Keyword::Values => "VALUES",
            Keyword::View => "VIEW",
            Keyword::When => "WHEN",
            Keyword::Where => "WHERE",
            Keyword::Window => "WINDOW",
            Keyword::With => "WITH",
            Keyword::Zone => "ZONE",
        }
    }
}

/// Every keyword, in declaration order.
pub open spec fn all_keywords() -> Seq<Keyword> {
    seq![
        Keyword::All,
        Keyword::Alter,
        Keyword::Any,
        Keyword::Array,
        Keyword::As,
        Keyword::Asc,
        Keyword::At,
        Keyword::By,
        Keyword::Case,
        Keyword::Cast,
        Keyword::Create,
        Keyword::Cross,
        Keyword::Cube,
        Keyword::Current,
        Keyword::Date,
        Keyword::Default,
        Keyword::Delete,
        Keyword::Desc,
        Keyword::Distinct,
        Keyword::Drop,
        Keyword::Else,
        Keyword::End,
        Keyword::Escape,
        Keyword::Except,
        Keyword::False,
        Keyword::Fetch,
        Keyword::Filter,
        Keyword::First,
        Keyword::Following,
        Keyword::Foreign,
        Keyword::From,
        Keyword::Full,
        Keyword::Group,
        Keyword::Grouping,
        Keyword::Having,
        Keyword::Inner,
        Keyword::Insert,
        Keyword::Intersect,
        Keyword::Interval,
        Keyword::Into,
        Keyword::Join,
        Keyword::Key,
        Keyword::Last,
        Keyword::Lateral,
        Keyword::Left,
        Keyword::Limit,
        Keyword::Materialized,
        Keyword::Merge,
        Keyword::Minus,
        Keyword::Natural,
        Keyword::Null,
        Keyword::Nulls,
        Keyword::Offset,
        Keyword::On,
        Keyword::Only,
        Keyword::Order,
        Keyword::Outer,
        Keyword::Over,
        Keyword::Partition,
        Keyword::Preceding,
        Keyword::Primary,
        Keyword::Range,
        Keyword::Recursive,
        Keyword::Returning,
        Keyword::Right,
        Keyword::Rollup,
        Keyword::Row,
        Keyword::Rows,
        Keyword::Schema,
        Keyword::Select,
        Keyword::SetKw,
        Keyword::Sets,
        Keyword::SomeKw,
        Keyword::Table,
        Keyword::Then,
        Keyword::Time,
        Keyword::Timestamp,
        Keyword::To,
        Keyword::True,
        Keyword::Unbounded,
        Keyword::Union,
        Keyword::Unknown,
        Keyword::Update,
        Keyword::Using,
        Keyword::Values,
        Keyword::View,
        Keyword::When,
        Keyword::Where,
        Keyword::Window,
        Keyword::With,
        Keyword::Zone,
    ]
}

/// Every keyword, in declaration order.
pub fn keyword_list() -> (res: Vec<Keyword>)
    ensures
        res@ == all_keywords(),
{
    let v = vec![
        Keyword::All,
        Keyword::Alter,
        Keyword::Any,
        Keyword::Array,
        Keyword::As,
        Keyword::Asc,
        Keyword::At,
        Keyword::By,
        Keyword::Case,
        Keyword::Cast,
        Keyword::Create,
        Keyword::Cross,
        Keyword::Cube,
        Keyword::Current,
        Keyword::Date,
        Keyword::Default,
        Keyword::Delete,
        Keyword::Desc,
        Keyword::Distinct,
        Keyword::Drop,
        Keyword::Else,
        Keyword::End,
        Keyword::Escape,
        Keyword::Except,
        Keyword::False,
        Keyword::Fetch,
        Keyword::Filter,
        Keyword::First,
        Keyword::Following,
        Keyword::Foreign,
        Keyword::From,
        Keyword::Full,
        Keyword::Group,
        Keyword::Grouping,
        Keyword::Having,
        Keyword::Inner,
        Keyword::Insert,
        Keyword::Intersect,
        Keyword::Interval,
        Keyword::Into,
        Keyword::Join,
        Keyword::Key,
        Keyword::Last,
        Keyword::Lateral,
        Keyword::Left,
        Keyword::Limit,
        Keyword::Materialized,
        Keyword::Merge,
        Keyword::Minus,
        Keyword::Natural,
        Keyword::Null,
        Keyword::Nulls,
        Keyword::Offset,
        Keyword::On,
        Keyword::Only,
        Keyword::Order,
        Keyword::Outer,
        Keyword::Over,
        Keyword::Partition,
        Keyword::Preceding,
        Keyword::Primary,
        Keyword::Range,
        Keyword::Recursive,
        Keyword::Returning,
        Keyword::Right,
        Keyword::Rollup,
        Keyword::Row,
        Keyword::Rows,
        Keyword::Schema,
        Keyword::Select,
        Keyword::SetKw,
        Keyword::Sets,
        Keyword::SomeKw,
        Keyword::Table,
        Keyword::Then,
        Keyword::Time,
        Keyword::Timestamp,
        Keyword::To,
        Keyword::True,
        Keyword::Unbounded,
        Keyword::Union,
        Keyword::Unknown,
        Keyword::Update,
        Keyword::Using,
        Keyword::Values,
        Keyword::View,
        Keyword::When,
        Keyword::Where,
        Keyword::Window,
        Keyword::With,
        Keyword::Zone,
    ];
    assert(v@ =~= all_keywords());
    v
}

/// The semantic meaning of an operator.
#[derive(Debug, Clone, Copy, PartialEq, Eq, Hash, Structural)]
pub enum OpTag {
    Add,
    And,
    Between,
    BitAnd,
    BitOr,
    BitXor,
    Concat,
    ContainedBy,
    Contains,
    Div,
    Eq,
    Exists,
    Exp,
    Gt,
    Gte,
    Ilike,
    In,
    Is,
    JsonAllKeys,
    JsonAnyKey,
    JsonGet,
    JsonGetText,
    JsonKeyExists,
    JsonPath,
    JsonPathBool,
    JsonPathMatch,
    JsonPathText,
    Like,
    Lt,
    Lte,
    Mod,
    Mul,
    Neq,
    Not,
    NotRegex,
    NotRegexI,
    Or,
    Overlap,
    Overlaps,
    Regex,
    RegexI,
    Shl,
    Shr,
    Similar,
    Sub,
    TypeCast,
    UnaryMinus,
    UnaryPlus,
}

/// Associativity of an infix operator.
#[derive(Debug, Clone, Copy, PartialEq, Eq, Hash, Structural)]
pub enum Assoc {
    Left,
    Right,
    /// Non-associative.
    NonAssoc,
}

/// Whether an operator stands between or before its operands.
#[derive(Debug, Clone, Copy, PartialEq, Eq, Hash, Structural)]
pub enum Fixity {
    Infix,
    Prefix,
}

/// An operator as the lexer classifies it.
#[derive(Debug, Clone, Copy, PartialEq, Eq, Hash, Structural)]
pub struct Operator {
    pub precedence: u8,
    pub assoc: Assoc,
    pub semantic_tag: OpTag,
    pub fixity: Fixity,
}

/// How an identifier is quoted.
#[derive(Debug, Clone, Copy, PartialEq, Eq, Hash, Structural)]
pub enum QuoteStyle {
    /// `"ident"`
    Double,
    /// `` `ident` ``
    Backtick,
    /// `[ident]`
    Bracket,
}

impl QuoteStyle {
    /// The byte that opens a quoted identifier.
    #[verifier::allow_in_spec]
    pub fn open_byte(&self) -> u8
        returns
            match self {
                QuoteStyle::Double => 34u8,
                QuoteStyle::Backtick => 96u8,
                QuoteStyle::Bracket => 91u8,
            },
    {
        match self {
            QuoteStyle::Double => 34u8,
            QuoteStyle::Backtick => 96u8,
            QuoteStyle::Bracket => 91u8,
        }
    }

    /// The byte that closes a quoted identifier.
    #[verifier::allow_in_spec]
    pub fn close_byte(&self) -> u8
        returns
            match self {
                QuoteStyle::Double => 34u8,
                QuoteStyle::Backtick => 96u8,
                QuoteStyle::Bracket => 93u8,
            },
    {
        match self {
            QuoteStyle::Double => 34u8,
            QuoteStyle::Backtick => 96u8,
            QuoteStyle::Bracket => 93u8,
        }
    }
}

/// The bytes without one leading `open` byte and then one trailing `close`
/// byte, where present.
pub open spec fn strip_quote_bytes(b: Seq<u8>, open: u8, close: u8) -> Seq<u8> {
    let s = if b.len() > 0 && b[0] == open {
        b.drop_first()
    } else {
        b
    };
    if s.len() > 0 && s.last() == close {
        s.drop_last()
    } else {
        s
    }
}

impl QuoteStyle {
    /// The text without its opening and closing quote, where present.
    pub fn strip_quotes<'a>(&self, text: &'a str) -> (res: &'a str)
        ensures
            res.spec_bytes() == strip_quote_bytes(
                text.spec_bytes(),
                self.open_byte(),
                self.close_byte(),
            ),
    {
        let b = text.as_bytes();
        let ghost bs = text.spec_bytes();
        let open = self.open_byte();
        let close = self.close_byte();
        proof {
            lemma_str_valid(text);
        }
        let start: usize = if b.len() > 0 && b[0] == open {
            proof {
                lemma_safe_after_ascii(bs, 0);
            }
            1
        } else {
            0
        };
        let end: usize = if b.len() > start && b[b.len() - 1] == close {
            b.len() - 1
        } else {
            b.len()
        };
        let res = substring_safe(text, start, end);
        proof {
            let s = if bs.len() > 0 && bs[0] == open {
                bs.drop_first()
            } else {
                bs
            };
            assert(s =~= bs.subrange(start as int, bs.len() as int));
            if s.len() > 0 && s.last() == close {
                assert(s.drop_last() =~= bs.subrange(start as int, end as int));
            } else {
                assert(s =~= bs.subrange(start as int, end as int));
            }
        }
        res
    }
}

/// The kind of a token.
#[derive(Debug, Clone, Copy, PartialEq, Eq, Hash, Structural)]
pub enum TokenKind {
    Keyword(Keyword),
    Operator(Operator),
    Identifier,
    IdentifierQuoted(QuoteStyle),
    Number,
    Float,
    Str,
    Comma,
    Dot,
    Colon,
    Semicolon,
    LeftParen,
    RightParen,
    LeftBracket,
    RightBracket,
    /// A character that starts no token of the dialect.
    Unknown,
    /// The end of the input.
    Eof,
}

/// A token: its kind, its byte span, and the text it covers.
#[derive(Debug, Clone, PartialEq, Eq)]
pub struct Token {
    pub kind: TokenKind,
    pub span: Span,
    pub text: String,
}

} // verus!
