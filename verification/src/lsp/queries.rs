use vstd::prelude::*;

use crate::dialect::DialectKind;

verus! {

/// The catalog introspection queries a client runs for a dialect, where the
/// dialect has them.
#[derive(Debug, Clone, Default)]
pub struct IntrospectionQueries {
    pub functions: Option<String>,
    pub tables: Option<String>,
    pub columns: Option<String>,
}

/// The text of an optional query.
pub open spec fn query_text(q: Option<&'static str>) -> Option<Seq<char>> {
    match q {
        Some(s) => Some(s@),
        None => None,
    }
}

/// The text of an optional owned query.
pub open spec fn owned_text(q: Option<String>) -> Option<Seq<char>> {
    match q {
        Some(s) => Some(s@),
        None => None,
    }
}

fn owned(q: Option<&'static str>) -> (res: Option<String>)
    ensures
        owned_text(res) == query_text(q),
{
    match q {
        Some(s) => Some(s.to_owned()),
        None => None,
    }
}

impl IntrospectionQueries {
    /// The queries of a dialect.
    pub fn for_dialect(kind: DialectKind) -> (res: Self)
        ensures
            owned_text(res.functions) == query_text(kind.functions_query()),
            owned_text(res.tables) == query_text(kind.tables_query()),
            owned_text(res.columns) == query_text(kind.columns_query()),
    {
        IntrospectionQueries {
            functions: owned(kind.functions_query()),
            tables: owned(kind.tables_query()),
            columns: owned(kind.columns_query()),
        }
    }
}

} // verus!
