use vstd::prelude::*;

pub mod functions;
pub mod rule;

use crate::dialect::{CaseFold, CommentStyle, DialectKind, DialectSpec, DialectView, StyleRules};
use crate::lex::QuoteStyle;
use functions::is_ansi_functions;
use rule::is_ansi_rules;

verus! {

/// What the ansi dialect description says.
pub open spec fn ansi_view() -> DialectView {
    DialectView {
        name: "ansi",
        kind: DialectKind::Ansi,
        keywords_case_insensitive: true,
        word_ops_case_insensitive: true,
        unquoted_identifier_fold: CaseFold::Upper,
        quoted_identifiers_case_sensitive: true,
        comments: seq![CommentStyle::DoubleDash, CommentStyle::SlashStar],
        quotes: seq![QuoteStyle::Double],
    }
}

/// The ANSI dialect description.
pub fn spec() -> (res: DialectSpec)
    ensures
        res@ == ansi_view(),
        res.kind == DialectKind::Ansi,
        res@.wf(),
        res.follow_rules@.len() == 1,
        is_ansi_rules(res.follow_rules@[0].0@),
        res.functions@.len() == 19,
        is_ansi_functions(res.functions@),
        res.style_rules.unquoted_identifier_fold == CaseFold::Upper,
        res.style_rules.comments@ == seq![CommentStyle::DoubleDash, CommentStyle::SlashStar],
        res.style_rules.quotes@ == seq![QuoteStyle::Double],
{
    let res = DialectSpec {
        name: "ansi",
        kind: DialectKind::Ansi,
        style_rules: StyleRules {
            keywords_case_insensitive: true,
            word_ops_case_insensitive: true,
            unquoted_identifier_fold: CaseFold::Upper,
            quoted_identifiers_case_sensitive: true,
            comments: vec![CommentStyle::DoubleDash, CommentStyle::SlashStar],
            quotes: vec![QuoteStyle::Double],
        },
        follow_rules: vec![rule::rules()],
        functions: functions::functions(),
    };
    assert(res.style_rules.comments@ =~= seq![CommentStyle::DoubleDash, CommentStyle::SlashStar]);
    assert(res.style_rules.quotes@ =~= seq![QuoteStyle::Double]);
    res
}

} // verus!
