//! Dialect descriptions: keyword and operator tables, lexical style rules and
//! the catalog introspection queries of each supported SQL dialect.
use vstd::prelude::*;
use vstd::string::*;

use crate::lex::{all_keywords, keyword_list, Keyword, Operator, QuoteStyle, TokenKind};
use crate::schema::{DataType, FunctionType};
use crate::text::{bytes_eq_folded, fold_bytes};
use follow::{resolve_next, spec_resolve_next, Rules};

pub mod ansi;
pub mod follow;
pub mod operators;
pub mod postgres;
pub mod rule;
pub mod sqlite;

use operators::{
    ansi_operator_list, ansi_operators, postgres_operator_list, postgres_operators,
    sqlite_operator_list, sqlite_operators, OperatorEntry,
};

verus! {

/// The supported dialects.
#[derive(Debug, Clone, Copy, PartialEq, Eq, Structural)]
pub enum DialectKind {
    Ansi,
    Sqlite,
    Postgres,
}

impl DialectKind {
    /// The dialect's short name.
    pub fn name(&self) -> (res: &'static str)
        ensures
            res == match self {
                DialectKind::Ansi => "ansi",
                DialectKind::Postgres => "postgres",
                DialectKind::Sqlite => "sqlite",
            },
    {
        match self {
            DialectKind::Ansi => "ansi",
            DialectKind::Postgres => "postgres",
            DialectKind::Sqlite => "sqlite",
        }
    }

    /// The dialect's description.
    pub fn spec(&self) -> (res: DialectSpec)
        ensures
            res.kind == *self,
            res@ == match self {
                DialectKind::Ansi => ansi::ansi_view(),
                DialectKind::Postgres => postgres::postgres_view(),
                DialectKind::Sqlite => sqlite::sqlite_view(),
            },
            res@.wf(),
            res.follow_rules@.len() == 1,
            ansi::rule::is_ansi_rules(res.follow_rules@[0].0@),
            ansi::functions::is_ansi_functions(res.functions@),
    {
        match self {
            DialectKind::Ansi => ansi::spec(),
            DialectKind::Postgres => postgres::spec(),
            DialectKind::Sqlite => sqlite::spec(),
        }
    }

    /// The query that lists the database's functions, where the dialect has one.
    #[verifier::allow_in_spec]
    pub fn functions_query(&self) -> Option<&'static str>
        returns
            (match self {
                DialectKind::Postgres => Some(postgres::QUERY_FUNCTIONS),
                _ => None::<&'static str>,
            }),
    {
        match self {
            DialectKind::Ansi => None,
            DialectKind::Postgres => Some(postgres::QUERY_FUNCTIONS),
            DialectKind::Sqlite => None,
        }
    }

    /// The query that lists the database's tables, where the dialect has one.
    #[verifier::allow_in_spec]
    pub fn tables_query(&self) -> Option<&'static str>
        returns
            (match self {
                DialectKind::Postgres => Some(postgres::QUERY_TABLES),
                DialectKind::Sqlite => Some(sqlite::QUERY_TABLES),
                DialectKind::Ansi => None::<&'static str>,
            }),
    {
        match self {
            DialectKind::Ansi => None,
            DialectKind::Postgres => Some(postgres::QUERY_TABLES),
            DialectKind::Sqlite => Some(sqlite::QUERY_TABLES),
        }
    }

    /// The query that lists the database's columns, where the dialect has one.
    #[verifier::allow_in_spec]
    pub fn columns_query(&self) -> Option<&'static str>
        returns
            (match self {
                DialectKind::Postgres => Some(postgres::QUERY_COLUMNS),
                DialectKind::Sqlite => Some(sqlite::QUERY_COLUMNS),
                DialectKind::Ansi => None::<&'static str>,
            }),
    {
        match self {
            DialectKind::Ansi => None,
            DialectKind::Postgres => Some(postgres::QUERY_COLUMNS),
            DialectKind::Sqlite => Some(sqlite::QUERY_COLUMNS),
        }
    }

    /// The dialect a name selects: `postgres` and `pg` select PostgreSQL,
    /// `sqlite` selects SQLite, and every other name selects ANSI.
    pub fn from_name(s: &str) -> (res: DialectKind)
        ensures
            res == dialect_of_name(s.spec_bytes()),
    {
        let b = s.as_bytes();
        if bytes_eq_folded(b, "postgres".as_bytes(), false) || bytes_eq_folded(
            b,
            "pg".as_bytes(),
            false,
        ) {
            DialectKind::Postgres
        } else if bytes_eq_folded(b, "sqlite".as_bytes(), false) {
            DialectKind::Sqlite
        } else {
            DialectKind::Ansi
        }
    }

    /// The default dialect, ANSI.
    pub fn default_kind() -> (res: DialectKind)
        ensures
            res == DialectKind::Ansi,
    {
        DialectKind::Ansi
    }
}

impl<'a> From<&'a str> for DialectKind {
    /// The dialect a name selects, as [`DialectKind::from_name`].
    fn from(s: &'a str) -> (res: DialectKind) {
        DialectKind::from_name(s)
    }
}

impl<'a> vstd::std_specs::convert::FromSpecImpl<&'a str> for DialectKind {
    open spec fn obeys_from_spec() -> bool {
        true
    }

    open spec fn from_spec(s: &'a str) -> DialectKind {
        dialect_of_name(s.spec_bytes())
    }
}

impl From<String> for DialectKind {
    /// The dialect a name selects, as [`DialectKind::from_name`].
    fn from(s: String) -> (res: DialectKind) {
        DialectKind::from_name(s.as_str())
    }
}

impl vstd::std_specs::convert::FromSpecImpl<String> for DialectKind {
    open spec fn obeys_from_spec() -> bool {
        true
    }

    open spec fn from_spec(s: String) -> DialectKind {
        dialect_of_name(vstd::utf8::encode_utf8(s@))
    }
}

/// The dialect that a name selects.
pub open spec fn dialect_of_name(b: Seq<u8>) -> DialectKind {
    if b == "postgres".spec_bytes() || b == "pg".spec_bytes() {
        DialectKind::Postgres
    } else if b == "sqlite".spec_bytes() {
        DialectKind::Sqlite
    } else {
        DialectKind::Ansi
    }
}

/// Whether a char has the Unicode `Alphabetic` property, as
/// `char::is_alphabetic` reports it.
pub uninterp spec fn unicode_alphabetic(c: char) -> bool;

/// Whether a char is alphabetic or numeric in Unicode, as
/// `char::is_alphanumeric` reports it.
pub uninterp spec fn unicode_alphanumeric(c: char) -> bool;

/// Calls `char::is_alphabetic`; the contract claims only that the result is
/// [`unicode_alphabetic`] of the char, a property Unicode fixes per char.
#[verifier::external_body]
fn char_is_alphabetic(c: char) -> (res: bool)
    ensures
        res == unicode_alphabetic(c),
{
    c.is_alphabetic()
}

/// Calls `char::is_alphanumeric`; the contract claims only that the result
/// is [`unicode_alphanumeric`] of the char, a property Unicode fixes per char.
#[verifier::external_body]
fn char_is_alphanumeric(c: char) -> (res: bool)
    ensures
        res == unicode_alphanumeric(c),
{
    c.is_alphanumeric()
}

/// The ASCII upper case of a char: `a` to `z` become `A` to `Z`, any other
/// char stays.
pub open spec fn ascii_upper_char(c: char) -> char {
    if 'a' <= c <= 'z' {
        ((c as u32) - 32) as char
    } else {
        c
    }
}

/// The ASCII lower case of a char: `A` to `Z` become `a` to `z`, any other
/// char stays.
pub open spec fn ascii_lower_char(c: char) -> char {
    if 'A' <= c <= 'Z' {
        ((c as u32) + 32) as char
    } else {
        c
    }
}

/// Calls `str::to_ascii_uppercase`; the contract claims what its
/// documentation says: each char mapped by [`ascii_upper_char`] (`a`..`z` to
/// `A`..`Z`, every other char unchanged).
#[verifier::external_body]
fn str_to_ascii_uppercase(s: &str) -> (res: String)
    ensures
        res@ == s@.map_values(|c: char| ascii_upper_char(c)),
{
    s.to_ascii_uppercase()
}

/// Calls `str::to_ascii_lowercase`; the contract claims what its
/// documentation says: each char mapped by [`ascii_lower_char`] (`A`..`Z` to
/// `a`..`z`, every other char unchanged).
#[verifier::external_body]
fn str_to_ascii_lowercase(s: &str) -> (res: String)
    ensures
        res@ == s@.map_values(|c: char| ascii_lower_char(c)),
{
    s.to_ascii_lowercase()
}

/// How unquoted identifiers are folded.
#[derive(Debug, Clone, Copy, PartialEq, Eq, Structural)]
pub enum CaseFold {
    Upper,
    Lower,
    Preserve,
}

/// The comment syntaxes a dialect may accept.
#[derive(Debug, Clone, Copy, PartialEq, Eq, Structural)]
pub enum CommentStyle {
    /// `-- ...` to the end of the line
    DoubleDash,
    /// `/* ... */`, nesting
    SlashStar,
    /// `# ...` to the end of the line
    Hash,
}

/// Lexical conventions of a dialect.
#[derive(Debug, Clone, PartialEq, Eq)]
pub struct StyleRules {
    /// Are keywords case-insensitive?
    pub keywords_case_insensitive: bool,
    /// Are word operators (AND/OR/NOT/LIKE/IN ...) case-insensitive?
    pub word_ops_case_insensitive: bool,
    /// How to fold unquoted identifiers.
    pub unquoted_identifier_fold: CaseFold,
    /// Quoted identifiers are treated as case-sensitive.
    pub quoted_identifiers_case_sensitive: bool,
    /// The comment styles the dialect accepts.
    pub comments: Vec<CommentStyle>,
    /// The identifier quote styles the dialect accepts.
    pub quotes: Vec<QuoteStyle>,
}

/// A dialect: its name, kind, lexical rules and keyword follow rules. Its
/// keyword and operator tables follow from its kind.
#[derive(Debug)]
pub struct DialectSpec {
    pub name: &'static str,
    pub kind: DialectKind,
    pub style_rules: StyleRules,
    pub follow_rules: Vec<Rules>,
    pub functions: Vec<SpecFunction>,
}

/// A built-in function of a dialect: its name, signature and description.
#[derive(Debug, Clone, PartialEq, Eq)]
pub struct SpecFunction {
    pub function_name: &'static str,
    pub parameter_types: Vec<DataType>,
    pub function_type: FunctionType,
    pub return_type: DataType,
    pub description: &'static str,
}

/// The index of the first function in `fs` named `name`, where there is one.
pub open spec fn first_function_named(fs: Seq<SpecFunction>, name: Seq<u8>) -> Option<int>
    decreases fs.len(),
{
    if fs.len() == 0 {
        None
    } else {
        match first_function_named(fs.drop_last(), name) {
            Some(i) => Some(i),
            None => if fs.last().function_name.spec_bytes() == name {
                Some(fs.len() - 1)
            } else {
                None
            },
        }
    }
}

/// What a dialect description says, as plain values.
pub struct DialectView {
    pub name: &'static str,
    pub kind: DialectKind,
    pub keywords_case_insensitive: bool,
    pub word_ops_case_insensitive: bool,
    pub unquoted_identifier_fold: CaseFold,
    pub quoted_identifiers_case_sensitive: bool,
    pub comments: Seq<CommentStyle>,
    pub quotes: Seq<QuoteStyle>,
}

impl View for DialectSpec {
    type V = DialectView;

    open spec fn view(&self) -> DialectView {
        DialectView {
            name: self.name,
            kind: self.kind,
            keywords_case_insensitive: self.style_rules.keywords_case_insensitive,
            word_ops_case_insensitive: self.style_rules.word_ops_case_insensitive,
            unquoted_identifier_fold: self.style_rules.unquoted_identifier_fold,
            quoted_identifiers_case_sensitive: self.style_rules.quoted_identifiers_case_sensitive,
            comments: self.style_rules.comments@,
            quotes: self.style_rules.quotes@,
        }
    }
}

/// The keywords of a dialect, in lookup order.
pub open spec fn keywords_of(kind: DialectKind) -> Seq<Keyword> {
    all_keywords()
}

/// The operators of a dialect, in lookup order.
pub open spec fn operators_of(kind: DialectKind) -> Seq<OperatorEntry> {
    match kind {
        DialectKind::Ansi => ansi_operators(),
        DialectKind::Postgres => postgres_operators(),
        DialectKind::Sqlite => sqlite_operators(),
    }
}

/// The first keyword at or after index `i` whose spelling is `w`.
pub open spec fn first_keyword(kws: Seq<Keyword>, w: Seq<u8>, i: int) -> Option<Keyword>
    decreases kws.len() - i,
{
    if i < 0 || i >= kws.len() {
        None
    } else if kws[i].name().spec_bytes() == w {
        Some(kws[i])
    } else {
        first_keyword(kws, w, i + 1)
    }
}

/// The first operator at or after index `i` whose spelling is `w`.
pub open spec fn first_operator(ops: Seq<OperatorEntry>, w: Seq<u8>, i: int) -> Option<Operator>
    decreases ops.len() - i,
{
    if i < 0 || i >= ops.len() {
        None
    } else if ops[i].symbol.spec_bytes() == w {
        Some(ops[i].op)
    } else {
        first_operator(ops, w, i + 1)
    }
}

/// The longest operator spelling in bytes, from index `i` on.
pub open spec fn max_symbol_len(ops: Seq<OperatorEntry>, i: int) -> nat
    decreases ops.len() - i,
{
    if i < 0 || i >= ops.len() {
        0
    } else {
        let rest = max_symbol_len(ops, i + 1);
        if ops[i].symbol.spec_bytes().len() > rest {
            ops[i].symbol.spec_bytes().len()
        } else {
            rest
        }
    }
}

impl DialectView {
    /// The rules that every dialect description keeps.
    pub open spec fn wf(self) -> bool {
        &&& self.keywords_case_insensitive
        &&& self.word_ops_case_insensitive
    }

    /// The keyword spelled by `keyword` (case-insensitively where the dialect
    /// says so).
    pub open spec fn spec_match_keyword(self, w: Seq<u8>) -> Option<Keyword> {
        first_keyword(
            keywords_of(self.kind),
            fold_bytes(w, self.keywords_case_insensitive),
            0,
        )
    }

    /// The operator spelled by `operator` (case-insensitively where the
    /// dialect says so).
    pub open spec fn spec_match_operator(self, w: Seq<u8>) -> Option<Operator> {
        first_operator(
            operators_of(self.kind),
            fold_bytes(w, self.word_ops_case_insensitive),
            0,
        )
    }

    pub open spec fn spec_max_op_len(self) -> nat {
        max_symbol_len(operators_of(self.kind), 0)
    }

    /// In a well-formed dialect a word and its upper-case form name the same
    /// keyword and the same operator: matching ignores ASCII case.
    pub proof fn law_matching_ignores_case(self, w: Seq<u8>)
        requires
            self.wf(),
        ensures
            self.spec_match_keyword(fold_bytes(w, true)) == self.spec_match_keyword(w),
            self.spec_match_operator(fold_bytes(w, true)) == self.spec_match_operator(w),
    {
        assert(fold_bytes(fold_bytes(w, true), true) =~= fold_bytes(w, true));
    }
}

impl DialectSpec {
    /// The built-in function with exactly this name (the names are upper
    /// case), where the dialect has one.
    pub fn function(&self, name: &str) -> (res: Option<&SpecFunction>)
        ensures
            match first_function_named(self.functions@, name.spec_bytes()) {
                Some(i) => res == Some(&self.functions@[i]),
                None => res is None,
            },
    {
        let fs = &self.functions;
        let mut i: usize = 0;
        while i < fs.len()
            invariant
                fs@ == self.functions@,
                i <= fs@.len(),
                first_function_named(fs@.subrange(0, i as int), name.spec_bytes()) is None,
            decreases fs.len() - i,
        {
            let ghost pre = fs@.subrange(0, i as int);
            assert(fs@.subrange(0, i + 1).drop_last() =~= pre);
            if bytes_eq_folded(fs[i].function_name.as_bytes(), name.as_bytes(), false) {
                proof {
                    let sub = fs@.subrange(0, i + 1);
                    assert(sub.last() == fs@[i as int]);
                    assert(fs@[i as int].function_name.spec_bytes() == name.spec_bytes());
                    assert(first_function_named(sub, name.spec_bytes()) == Some(i as int));
                    lemma_first_function_prefix(fs@, name.spec_bytes(), i + 1);
                }
                return Some(&fs[i]);
            }
            i += 1;
        }
        assert(fs@.subrange(0, fs@.len() as int) =~= fs@);
        None
    }

    /// The keyword sequences that may follow `tokens` under this dialect's
    /// follow rules (see [`resolve_next`]).
    pub fn resolve_follow_rules(&self, tokens: &[TokenKind]) -> (res: Vec<Vec<Keyword>>)
        ensures
            res@.map_values(|v: Vec<Keyword>| v@) == spec_resolve_next(
                self.follow_rules@,
                tokens@,
            ),
    {
        resolve_next(self.follow_rules.as_slice(), tokens)
    }

    fn operator_list(&self) -> (res: Vec<OperatorEntry>)
        ensures
            res@ == operators_of(self.kind),
    {
        match self.kind {
            DialectKind::Ansi => ansi_operator_list(),
            DialectKind::Postgres => postgres_operator_list(),
            DialectKind::Sqlite => sqlite_operator_list(),
        }
    }

    /// Look up a keyword by its spelling.
    pub fn match_keyword(&self, keyword: &str) -> (res: Option<Keyword>)
        ensures
            res == self@.spec_match_keyword(keyword.spec_bytes()),
    {
        self.match_keyword_bytes(keyword.as_bytes())
    }

    /// Look up a keyword by the bytes of its spelling.
    pub fn match_keyword_bytes(&self, word: &[u8]) -> (res: Option<Keyword>)
        ensures
            res == self@.spec_match_keyword(word@),
    {
        let kws = keyword_list();
        let fold = self.style_rules.keywords_case_insensitive;
        let ghost w = fold_bytes(word@, fold);
        let mut i: usize = 0;
        while i < kws.len()
            invariant
                kws@ == keywords_of(self.kind),
                fold == self.style_rules.keywords_case_insensitive,
                w == fold_bytes(word@, fold),
                i <= kws@.len(),
                first_keyword(kws@, w, 0) == first_keyword(kws@, w, i as int),
            decreases kws.len() - i,
        {
            let k = kws[i];
            if bytes_eq_folded(word, k.name().as_bytes(), fold) {
                return Some(k);
            }
            i += 1;
        }
        None
    }

    /// Look up an operator by its spelling.
    pub fn match_operator(&self, operator: &str) -> (res: Option<Operator>)
        ensures
            res == self@.spec_match_operator(operator.spec_bytes()),
    {
        self.match_operator_bytes(operator.as_bytes())
    }

    /// Look up an operator by the bytes of its spelling.
    pub fn match_operator_bytes(&self, word: &[u8]) -> (res: Option<Operator>)
        ensures
            res == self@.spec_match_operator(word@),
    {
        let ops = self.operator_list();
        let fold = self.style_rules.word_ops_case_insensitive;
        let ghost w = fold_bytes(word@, fold);
        let mut i: usize = 0;
        while i < ops.len()
            invariant
                ops@ == operators_of(self.kind),
                fold == self.style_rules.word_ops_case_insensitive,
                w == fold_bytes(word@, fold),
                i <= ops@.len(),
                first_operator(ops@, w, 0) == first_operator(ops@, w, i as int),
            decreases ops.len() - i,
        {
            let e = ops[i];
            if bytes_eq_folded(word, e.symbol.as_bytes(), fold) {
                return Some(e.op);
            }
            i += 1;
        }
        None
    }

    /// Whether the dialect accepts identifiers quoted in this style.
    pub fn supports_quote_style(&self, quote: QuoteStyle) -> (res: bool)
        ensures
            res == self.style_rules.quotes@.contains(quote),
    {
        let mut i: usize = 0;
        while i < self.style_rules.quotes.len()
            invariant
                i <= self.style_rules.quotes@.len(),
                forall|j: int| 0 <= j < i ==> self.style_rules.quotes@[j] != quote,
            decreases self.style_rules.quotes.len() - i,
        {
            if self.style_rules.quotes[i] == quote {
                return true;
            }
            i += 1;
        }
        false
    }

    /// Whether the dialect accepts comments in this style.
    pub fn supports_comment_style(&self, comment: CommentStyle) -> (res: bool)
        ensures
            res == self.style_rules.comments@.contains(comment),
    {
        let mut i: usize = 0;
        while i < self.style_rules.comments.len()
            invariant
                i <= self.style_rules.comments@.len(),
                forall|j: int| 0 <= j < i ==> self.style_rules.comments@[j] != comment,
            decreases self.style_rules.comments.len() - i,
        {
            if self.style_rules.comments[i] == comment {
                return true;
            }
            i += 1;
        }
        false
    }

    /// Whether a char may start an identifier: `_`, `$` or an alphabetic
    /// char.
    pub fn is_ident_start(ch: char) -> (res: bool)
        ensures
            res == (ch == '_' || ch == '$' || unicode_alphabetic(ch)),
    {
        ch == '_' || ch == '$' || char_is_alphabetic(ch)
    }

    /// Whether a char may continue an identifier: `_`, `$` or an
    /// alphanumeric char.
    pub fn is_ident_continue(ch: char) -> (res: bool)
        ensures
            res == (ch == '_' || ch == '$' || unicode_alphanumeric(ch)),
    {
        ch == '_' || ch == '$' || char_is_alphanumeric(ch)
    }

    /// An unquoted identifier folded as the dialect says: upper-cased,
    /// lower-cased (ASCII letters only) or kept.
    pub fn fold_unquoted_identifier(&self, ident: &str) -> (res: String)
        ensures
            res@ == match self.style_rules.unquoted_identifier_fold {
                CaseFold::Upper => ident@.map_values(|c: char| ascii_upper_char(c)),
                CaseFold::Lower => ident@.map_values(|c: char| ascii_lower_char(c)),
                CaseFold::Preserve => ident@,
            },
    {
        match self.style_rules.unquoted_identifier_fold {
            CaseFold::Upper => str_to_ascii_uppercase(ident),
            CaseFold::Lower => str_to_ascii_lowercase(ident),
            CaseFold::Preserve => ident.to_string(),
        }
    }

    /// The length in bytes of the dialect's longest operator spelling.
    pub fn max_op_len(&self) -> (res: usize)
        ensures
            res == self@.spec_max_op_len(),
    {
        let ops = self.operator_list();
        let mut best: usize = 0;
        let mut i: usize = ops.len();
        while i > 0
            invariant
                ops@ == operators_of(self.kind),
                i <= ops@.len(),
                best == max_symbol_len(ops@, i as int),
            decreases i,
        {
            i -= 1;
            let l = ops[i].symbol.as_bytes().len();
            if l > best {
                best = l;
            }
        }
        best
    }
}


/// A first match in a prefix is the first match in the whole.
proof fn lemma_first_function_prefix(fs: Seq<SpecFunction>, name: Seq<u8>, n: int)
    requires
        0 <= n <= fs.len(),
        first_function_named(fs.subrange(0, n), name) is Some,
    ensures
        first_function_named(fs, name) == first_function_named(fs.subrange(0, n), name),
    decreases fs.len() - n,
{
    if n < fs.len() {
        assert(fs.subrange(0, n + 1).drop_last() =~= fs.subrange(0, n));
        lemma_first_function_prefix(fs, name, n + 1);
    } else {
        assert(fs.subrange(0, n) =~= fs);
    }
}

} // verus!
