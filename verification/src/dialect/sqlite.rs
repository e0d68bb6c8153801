use vstd::prelude::*;

use crate::dialect::{CaseFold, CommentStyle, DialectKind, DialectSpec, DialectView, StyleRules};
use crate::dialect::ansi;
use crate::dialect::ansi::functions::is_ansi_functions;
use crate::dialect::ansi::rule::is_ansi_rules;
use crate::lex::QuoteStyle;

verus! {

/// What the sqlite dialect description says.
pub open spec fn sqlite_view() -> DialectView {
    DialectView {
        name: "sqlite",
        kind: DialectKind::Sqlite,
        keywords_case_insensitive: true,
        word_ops_case_insensitive: true,
        unquoted_identifier_fold: CaseFold::Preserve,
        quoted_identifiers_case_sensitive: true,
        comments: seq![CommentStyle::DoubleDash, CommentStyle::SlashStar],
        quotes: seq![QuoteStyle::Double],
    }
}

/// The Sqlite dialect description.
pub fn spec() -> (res: DialectSpec)
    ensures
        res@ == sqlite_view(),
        res.kind == DialectKind::Sqlite,
        res@.wf(),
        res.follow_rules@.len() == 1,
        is_ansi_rules(res.follow_rules@[0].0@),
        res.functions@.len() == 19,
        is_ansi_functions(res.functions@),
        res.style_rules.unquoted_identifier_fold == CaseFold::Preserve,
        res.style_rules.comments@ == seq![CommentStyle::DoubleDash, CommentStyle::SlashStar],
        res.style_rules.quotes@ == seq![QuoteStyle::Double],
{
    let res = DialectSpec {
        name: "sqlite",
        kind: DialectKind::Sqlite,
        style_rules: StyleRules {
            keywords_case_insensitive: true,
            word_ops_case_insensitive: true,
            unquoted_identifier_fold: CaseFold::Preserve,
            quoted_identifiers_case_sensitive: true,
            comments: vec![CommentStyle::DoubleDash, CommentStyle::SlashStar],
            quotes: vec![QuoteStyle::Double],
        },
        follow_rules: vec![ansi::rule::rules()],
        functions: ansi::functions::functions(),
    };
    assert(res.style_rules.comments@ =~= seq![CommentStyle::DoubleDash, CommentStyle::SlashStar]);
    assert(res.style_rules.quotes@ =~= seq![QuoteStyle::Double]);
    res
}

pub const QUERY_TABLES: &'static str = r#"
SELECT
    m.name AS table_name,
    NULL AS schema_name,
    NULL AS database_name,
    CASE m.type
        WHEN 'table' THEN 'table'
        WHEN 'view' THEN 'view'
        ELSE 'table'
    END AS table_type
FROM sqlite_master m
WHERE m.type IN ('table', 'view')
    AND m.name NOT LIKE 'sqlite_%'
ORDER BY m.name
"#;

pub const QUERY_COLUMNS: &'static str = r#"
SELECT
    p.name AS column_name,
    m.name AS table_name,
    NULL AS schema_name,
    p.type AS data_type,
    CASE p."notnull"
        WHEN 0 THEN 1
        ELSE 0
    END AS is_nullable
FROM sqlite_master m
JOIN pragma_table_info(m.name) p
WHERE m.type IN ('table', 'view')
    AND m.name NOT LIKE 'sqlite_%'
ORDER BY m.name, p.cid
"#;

} // verus!
