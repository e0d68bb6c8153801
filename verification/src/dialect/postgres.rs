use vstd::prelude::*;

use crate::dialect::{CaseFold, CommentStyle, DialectKind, DialectSpec, DialectView, StyleRules};
use crate::dialect::ansi;
use crate::dialect::ansi::functions::is_ansi_functions;
use crate::dialect::ansi::rule::is_ansi_rules;
use crate::lex::QuoteStyle;

verus! {

/// What the postgres dialect description says.
pub open spec fn postgres_view() -> DialectView {
    DialectView {
        name: "postgres",
        kind: DialectKind::Postgres,
        keywords_case_insensitive: true,
        word_ops_case_insensitive: true,
        unquoted_identifier_fold: CaseFold::Lower,
        quoted_identifiers_case_sensitive: true,
        comments: seq![CommentStyle::DoubleDash, CommentStyle::SlashStar],
        quotes: seq![QuoteStyle::Double],
    }
}

/// The Postgres dialect description.
pub fn spec() -> (res: DialectSpec)
    ensures
        res@ == postgres_view(),
        res.kind == DialectKind::Postgres,
        res@.wf(),
        res.follow_rules@.len() == 1,
        is_ansi_rules(res.follow_rules@[0].0@),
        res.functions@.len() == 19,
        is_ansi_functions(res.functions@),
        res.style_rules.unquoted_identifier_fold == CaseFold::Lower,
        res.style_rules.comments@ == seq![CommentStyle::DoubleDash, CommentStyle::SlashStar],
        res.style_rules.quotes@ == seq![QuoteStyle::Double],
{
    let res = DialectSpec {
        name: "postgres",
        kind: DialectKind::Postgres,
        style_rules: StyleRules {
            keywords_case_insensitive: true,
            word_ops_case_insensitive: true,
            unquoted_identifier_fold: CaseFold::Lower,
            quoted_identifiers_case_sensitive: true,
            comments: vec![CommentStyle::DoubleDash, CommentStyle::SlashStar],
            quotes: vec![QuoteStyle::Double],
        },
        follow_rules: vec![ansi::rule::rules()],
        functions: ansi::functions::functions(),
    };
    assert(res.style_rules.comments@ =~= seq![CommentStyle::DoubleDash, CommentStyle::SlashStar]);
    assert(res.style_rules.quotes@ =~= seq![QuoteStyle::Double]);
    res
}

pub const QUERY_TABLES: &'static str = r#"
SELECT
    c.relname AS table_name,
    n.nspname AS schema_name,
    current_database() AS database_name,
    CASE c.relkind
        WHEN 'r' THEN 'table'
        WHEN 'v' THEN 'view'
        WHEN 'm' THEN 'view'
        ELSE 'table'
    END AS table_type
FROM pg_catalog.pg_class c
JOIN pg_catalog.pg_namespace n ON n.oid = c.relnamespace
WHERE c.relkind IN ('r', 'v', 'm')
    AND n.nspname NOT IN ('pg_catalog', 'information_schema', 'pg_toast')
ORDER BY n.nspname, c.relname
"#;

pub const QUERY_COLUMNS: &'static str = r#"
SELECT
    a.attname AS column_name,
    c.relname AS table_name,
    n.nspname AS schema_name,
    format_type(a.atttypid, a.atttypmod) AS data_type,
    NOT a.attnotnull AS is_nullable
FROM pg_catalog.pg_attribute a
JOIN pg_catalog.pg_class c ON c.oid = a.attrelid
JOIN pg_catalog.pg_namespace n ON n.oid = c.relnamespace
WHERE a.attnum > 0
    AND NOT a.attisdropped
    AND c.relkind IN ('r', 'v', 'm')
    AND n.nspname NOT IN ('pg_catalog', 'information_schema', 'pg_toast')
ORDER BY n.nspname, c.relname, a.attnum
"#;

pub const QUERY_FUNCTIONS: &'static str = r#"
SELECT
    p.proname AS function_name,
    n.nspname AS schema_name,
    current_database() AS database_name,
    CASE
        WHEN p.proretset THEN 'table'
        WHEN p.prokind = 'a' THEN 'aggregate'
        ELSE 'scalar'
    END AS function_type,
    pg_catalog.pg_get_function_arguments(p.oid) AS parameters,
    format_type(p.prorettype, NULL) AS return_type,
    d.description
FROM pg_catalog.pg_proc p
JOIN pg_catalog.pg_namespace n ON n.oid = p.pronamespace
LEFT JOIN pg_catalog.pg_description d ON d.objoid = p.oid
WHERE n.nspname NOT IN ('pg_catalog', 'information_schema')
ORDER BY n.nspname, p.proname
"#;

} // verus!
