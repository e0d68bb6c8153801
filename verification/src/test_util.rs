//! Helpers for writing completion tests: a caret (`^`) in the SQL marks the
//! cursor.
use vstd::prelude::*;
use vstd::string::*;
use vstd::utf8::*;

use crate::dialect::ansi;
use crate::lex::{lex, lexer::lex_from, Token};
use crate::schema::{Cache, CacheBuilder, DataType, Name};
use crate::text::{lemma_safe_after_ascii, lemma_str_valid, safe_pos, substring_safe};

verus! {

/// The first index at or after `i` of a `^` byte, or the length.
pub open spec fn first_caret(b: Seq<u8>, i: int) -> int
    decreases b.len() - i,
{
    if i < 0 || i >= b.len() {
        b.len() as int
    } else if b[i] == 94 {
        i
    } else {
        first_caret(b, i + 1)
    }
}

proof fn lemma_first_caret(b: Seq<u8>, i: int)
    requires
        0 <= i <= b.len(),
    ensures
        i <= first_caret(b, i) <= b.len(),
        first_caret(b, i) < b.len() ==> b[first_caret(b, i)] == 94,
        forall|j: int| i <= j < first_caret(b, i) ==> b[j] != 94,
    decreases b.len() - i,
{
    if i < b.len() && b[i] != 94 {
        lemma_first_caret(b, i + 1);
    }
}

/// Encoding a concatenation encodes each part.
pub proof fn lemma_encode_concat(a: Seq<char>, c: Seq<char>)
    ensures
        encode_utf8(a + c) == encode_utf8(a) + encode_utf8(c),
    decreases a.len(),
{
    if a.len() == 0 {
        assert(a + c =~= c);
        assert(encode_utf8(a) =~= Seq::<u8>::empty());
        assert(encode_utf8(a) + encode_utf8(c) =~= encode_utf8(c));
    } else {
        lemma_encode_concat(a.drop_first(), c);
        assert((a + c).drop_first() =~= a.drop_first() + c);
        assert((a + c)[0] == a[0]);
    }
}

/// Split the first caret out of `sql_with_caret`: the text without it, and its
/// byte position (the text's length when there is no caret).
pub fn get_caret_cursor(sql_with_caret: &str) -> (res: (String, usize))
    ensures
        ({
            let b = sql_with_caret.spec_bytes();
            let p = first_caret(b, 0);
            &&& res.1 == p
            &&& p < b.len() ==> encode_utf8(res.0@) == b.subrange(0, p) + b.subrange(
                p + 1,
                b.len() as int,
            )
            &&& p >= b.len() ==> res.0@ == sql_with_caret@
        }),
        ({
            let b = sql_with_caret.spec_bytes();
            let p = first_caret(b, 0);
            let t = encode_utf8(res.0@);
            &&& forall|j: int| 0 <= j < p ==> b[j] != 94
            &&& res.1 <= t.len()
            &&& safe_pos(t, res.1 as int)
            &&& p < b.len() ==> t.subrange(0, p) + seq![94u8] + t.subrange(p, t.len() as int) == b
        }),
{
    let b = sql_with_caret.as_bytes();
    let ghost bs = sql_with_caret.spec_bytes();
    proof {
        lemma_str_valid(sql_with_caret);
        lemma_first_caret(bs, 0);
    }
    let mut i: usize = 0;
    while i < b.len() && b[i] != 94
        invariant
            b@ == bs,
            i <= bs.len(),
            first_caret(bs, 0) == first_caret(bs, i as int),
        decreases b.len() - i,
    {
        i += 1;
    }
    if i >= b.len() {
        return (String::from_str(sql_with_caret), b.len());
    }
    proof {
        lemma_safe_after_ascii(bs, i as int);
    }
    let before = substring_safe(sql_with_caret, 0, i);
    let after = substring_safe(sql_with_caret, i + 1, b.len());
    let mut s = String::from_str(before);
    s.append(after);
    proof {
        lemma_encode_concat(before@, after@);
        let t = encode_utf8(s@);
        assert(t =~= bs.subrange(0, i as int) + bs.subrange(i + 1, bs.len() as int));
        assert(t.subrange(0, i as int) =~= bs.subrange(0, i as int));
        assert(t.subrange(i as int, t.len() as int) =~= bs.subrange(i + 1, bs.len() as int));
        assert(t.subrange(0, i as int) + seq![94u8] + t.subrange(i as int, t.len() as int) =~= bs);
        if (i as int) < t.len() {
            assert(t[i as int] == bs[i + 1]);
        }
    }
    (s, i)
}

/// Hands out a string that lives for the rest of the program.
#[verifier::external_body]
fn leak_string(s: String) -> (res: &'static str)
    ensures
        res@ == s@,
{
    s.leak()
}

/// Like [`get_caret_cursor`], with the text kept alive for the rest of the
/// program.
pub fn leaky_static_caret_cursor(sql_with_caret: &str) -> (res: (&'static str, usize))
    ensures
        ({
            let b = sql_with_caret.spec_bytes();
            let p = first_caret(b, 0);
            &&& res.1 == p
            &&& p < b.len() ==> res.0.spec_bytes() == b.subrange(0, p) + b.subrange(
                p + 1,
                b.len() as int,
            )
            &&& p >= b.len() ==> res.0@ == sql_with_caret@
        }),
{
    let (text, pos) = get_caret_cursor(sql_with_caret);
    (leak_string(text), pos)
}

/// Lex with the ANSI dialect.
pub fn ansi_lex(sql: &str) -> (res: Vec<Token>)
    ensures
        crate::lex::lexer::triples(res@) == lex_from(ansi::ansi_view(), sql.spec_bytes(), 0),
        forall|k: int|
            0 <= k < res@.len() ==> encode_utf8((#[trigger] res@[k]).text@) == sql.spec_bytes().subrange(
                res@[k].span.start as int,
                res@[k].span.end as int,
            ),
{
    let spec = ansi::spec();
    lex(&spec, sql)
}

/// A catalog with `public.users(id, name, email)` and
/// `public.posts(id, title, content)`.
pub fn users_posts_schema() -> (res: Cache)
    ensures
        res.tables@.len() == 2,
        res.columns@.len() == 6,
        res.functions@.len() == 0,
        res.tables@[0].table_name@ == "users"@,
        res.tables@[1].table_name@ == "posts"@,
        res.columns@[0].column_name@ == "id"@,
        res.columns@[0].data_type == DataType::Integer,
        res.columns@[1].column_name@ == "name"@,
        res.columns@[1].data_type == DataType::Text,
        res.columns@[2].column_name@ == "email"@,
        res.columns@[2].data_type == DataType::Text,
        res.columns@[3].column_name@ == "id"@,
        res.columns@[3].data_type == DataType::Integer,
        res.columns@[4].column_name@ == "title"@,
        res.columns@[4].data_type == DataType::Text,
        res.columns@[5].column_name@ == "content"@,
        res.columns@[5].data_type == DataType::Text,
{
    CacheBuilder::new().table_in("users", Name(Some("public")), Name(None)).column_in(
        "id",
        DataType::Integer,
        Name(Some("users")),
        Name(Some("public")),
        Name(None),
    ).column_in(
        "name",
        DataType::Text,
        Name(Some("users")),
        Name(Some("public")),
        Name(None),
    ).column_in(
        "email",
        DataType::Text,
        Name(Some("users")),
        Name(Some("public")),
        Name(None),
    ).table_in("posts", Name(Some("public")), Name(None)).column_in(
        "id",
        DataType::Integer,
        Name(Some("posts")),
        Name(Some("public")),
        Name(None),
    ).column_in(
        "title",
        DataType::Text,
        Name(Some("posts")),
        Name(Some("public")),
        Name(None),
    ).column_in(
        "content",
        DataType::Text,
        Name(Some("posts")),
        Name(Some("public")),
        Name(None),
    ).build()
}

} // verus!
