//! Reading the type names a PostgreSQL catalog reports into column types.
use vstd::prelude::*;
use vstd::string::*;
use vstd::utf8::*;

use crate::parse::number::{parse_unsigned_bytes, spec_parse_unsigned};
use crate::text::{bytes_eq_folded, lemma_safe_after_ascii, lemma_str_valid, safe_pos, substring_safe};

verus! {

/// A column type as PostgreSQL names it; `Other` keeps names it does not
/// map.
#[derive(Debug, PartialEq, Eq)]
pub enum SimpleType {
    Boolean,
    Integer,
    BigInt,
    Float,
    Double,
    Decimal { precision: u8, scale: u8 },
    Text,
    Varchar { len: Option<u32> },
    Timestamp,
    Date,
    Time,
    Json,
    Bytes,
    Uuid,
    Other(String),
}

/// The lowercase form of a text (`str::to_lowercase`): the Unicode lowercase
/// mapping of each char, which may change the number of chars.
pub uninterp spec fn lowercase(s: Seq<char>) -> Seq<char>;

/// Calls `str::to_lowercase`; the contract claims only that the result is
/// [`lowercase`] of the text, the Unicode lowercase mapping, which depends on
/// the text alone.
#[verifier::external_body]
fn to_lowercase(s: &str) -> (res: String)
    ensures
        res@ == lowercase(s@),
{
    s.to_lowercase()
}

/// Whether a char has the Unicode `White_Space` property (`char::is_whitespace`).
pub open spec fn is_white_space(c: char) -> bool {
    let u = c as u32;
    ||| 0x9 <= u <= 0xd
    ||| u == 0x20
    ||| u == 0x85
    ||| u == 0xa0
    ||| u == 0x1680
    ||| 0x2000 <= u <= 0x200a
    ||| u == 0x2028
    ||| u == 0x2029
    ||| u == 0x202f
    ||| u == 0x205f
    ||| u == 0x3000
}

/// The text without its leading white space.
pub open spec fn trim_start(s: Seq<char>) -> Seq<char>
    decreases s.len(),
{
    if s.len() > 0 && is_white_space(s[0]) {
        trim_start(s.drop_first())
    } else {
        s
    }
}

/// The text without its trailing white space.
pub open spec fn trim_end(s: Seq<char>) -> Seq<char>
    decreases s.len(),
{
    if s.len() > 0 && is_white_space(s.last()) {
        trim_end(s.drop_last())
    } else {
        s
    }
}

/// The text without leading and trailing white space.
pub open spec fn trim(s: Seq<char>) -> Seq<char> {
    trim_end(trim_start(s))
}

/// Calls `str::trim`; the contract claims what its documentation says: the
/// text with leading and trailing `White_Space` chars removed ([`trim`]).
#[verifier::external_body]
fn str_trim<'a>(s: &'a str) -> (res: &'a str)
    ensures
        res@ == trim(s@),
{
    s.trim()
}

/// The index of the first byte `x` in `b`, where there is one.
#[verifier::opaque]
pub open spec fn first_byte(b: Seq<u8>, x: u8) -> Option<int> {
    if exists|i: int| 0 <= i < b.len() && b[i] == x {
        Some(choose|i: int| 0 <= i < b.len() && b[i] == x && forall|j: int| 0 <= j < i ==> b[j] != x)
    } else {
        None
    }
}

/// What [`first_byte`] gives: an index holding `x` with no `x` before it, or
/// nothing where no byte is `x`.
pub proof fn lemma_first_byte(b: Seq<u8>, x: u8)
    ensures
        match first_byte(b, x) {
            Some(i) => 0 <= i < b.len() && b[i] == x && forall|j: int| 0 <= j < i ==> b[j] != x,
            None => forall|j: int| 0 <= j < b.len() ==> b[j] != x,
        },
{
    reveal(first_byte);
    if exists|i: int| 0 <= i < b.len() && b[i] == x {
        let w = choose|i: int| 0 <= i < b.len() && b[i] == x;
        lemma_least_index(b, x, w);
    }
}

proof fn lemma_least_index(b: Seq<u8>, x: u8, w: int)
    requires
        0 <= w < b.len(),
        b[w] == x,
    ensures
        exists|i: int| 0 <= i < b.len() && b[i] == x && forall|j: int| 0 <= j < i ==> b[j] != x,
    decreases w,
{
    if exists|j: int| 0 <= j < w && b[j] == x {
        let v = choose|j: int| 0 <= j < w && b[j] == x;
        lemma_least_index(b, x, v);
    } else {
        assert(forall|j: int| 0 <= j < w ==> b[j] != x);
    }
}

/// The index of the first byte `x` in `b`.
fn find_byte(b: &[u8], x: u8) -> (res: Option<usize>)
    ensures
        res is None <==> first_byte(b@, x) is None,
        res matches Some(i) ==> first_byte(b@, x) == Some(i as int) && i < b@.len() && b@[i as int] == x,
{
    let mut i: usize = 0;
    while i < b.len()
        invariant
            i <= b@.len(),
            forall|j: int| 0 <= j < i ==> b@[j] != x,
        decreases b.len() - i,
    {
        if b[i] == x {
            proof {
                lemma_first_byte(b@, x);
                let w = first_byte(b@, x)->0;
                assert(w == i) by {
                    if w < i {
                        assert(b@[w] != x);
                    } else if w > i {
                        assert(b@[i as int] != x);
                    }
                }
            }
            return Some(i);
        }
        i += 1;
    }
    proof {
        lemma_first_byte(b@, x);
    }
    None
}

/// Whether the byte `x` occurs in `b` at or after `from`.
fn has_byte_from(b: &[u8], x: u8, from: usize) -> (res: bool)
    ensures
        res == exists|j: int| from <= j < b@.len() && b@[j] == x,
{
    let mut i: usize = from;
    while i < b.len()
        invariant
            from <= i,
            forall|j: int| from <= j < i ==> b@[j] != x,
        decreases b.len() - i,
    {
        if b[i] == x {
            assert(from <= i < b@.len() && b@[i as int] == x);
            return true;
        }
        i += 1;
    }
    false
}

/// Whether the bytes are exactly those of `name`.
fn eq_bytes(b: &[u8], name: &str) -> (res: bool)
    ensures
        res == (b@ == name.spec_bytes()),
{
    bytes_eq_folded(b, name.as_bytes(), false)
}

/// Whether `b` starts with `p`.
pub open spec fn starts_with(b: Seq<u8>, p: Seq<u8>) -> bool {
    p.len() <= b.len() && b.subrange(0, p.len() as int) == p
}

fn bytes_start_with(b: &[u8], p: &[u8]) -> (res: bool)
    ensures
        res == starts_with(b@, p@),
{
    if p.len() > b.len() {
        return false;
    }
    let mut i: usize = 0;
    while i < p.len()
        invariant
            p@.len() <= b@.len(),
            i <= p@.len(),
            forall|j: int| 0 <= j < i ==> b@[j] == p@[j],
        decreases p.len() - i,
    {
        if b[i] != p[i] {
            assert(b@.subrange(0, p@.len() as int)[i as int] != p@[i as int]);
            return false;
        }
        i += 1;
    }
    assert(b@.subrange(0, p@.len() as int) =~= p@);
    true
}

/// A character-varying type name: `character varying..` or `varchar..`.
pub open spec fn is_varchar(l: Seq<u8>) -> bool {
    starts_with(l, "character varying".spec_bytes()) || starts_with(l, "varchar".spec_bytes())
}

/// A fixed-point type name: `numeric..` or `decimal..`.
pub open spec fn is_numeric(l: Seq<u8>) -> bool {
    starts_with(l, "numeric".spec_bytes()) || starts_with(l, "decimal".spec_bytes())
}

/// The first `(` and the first `)` of the text, where both occur.
pub open spec fn parens(b: Seq<u8>) -> Option<(int, int)> {
    match (first_byte(b, 40u8), first_byte(b, 41u8)) {
        (Some(o), Some(c)) => Some((o, c)),
        _ => None,
    }
}

/// Whether reading the type's parameters would take the text from just
/// after the first `(` to a first `)` that comes before it.
pub open spec fn params_cut_backwards(b: Seq<u8>, l: Seq<u8>) -> bool {
    (is_varchar(l) || is_numeric(l)) && match parens(b) {
        Some((o, c)) => c < o + 1,
        None => false,
    }
}

/// The precision and scale of `name(p, s)`: the text between the first `(`
/// and the first `)` holds exactly one comma, and each side, trimmed of
/// white space, reads as a byte-sized number.
pub open spec fn decimal_params(b: Seq<u8>) -> Option<(u8, u8)> {
    match parens(b) {
        Some((o, c)) => {
            let inner = b.subrange(o + 1, c);
            match first_byte(inner, 44u8) {
                Some(k) => if exists|j: int| k + 1 <= j < inner.len() && inner[j] == 44u8 {
                    None
                } else {
                    let a = spec_parse_unsigned(
                        encode_utf8(trim(decode_utf8(inner.subrange(0, k)))),
                        255,
                    );
                    let z = spec_parse_unsigned(
                        encode_utf8(trim(decode_utf8(inner.subrange(k + 1, inner.len() as int)))),
                        255,
                    );
                    match (a, z) {
                        (Some(p), Some(s)) => Some((p as u8, s as u8)),
                        _ => None,
                    }
                },
                None => None,
            }
        },
        None => None,
    }
}

/// The type a lowercase name spells exactly, where it is one of the known
/// names.
pub open spec fn named_type(l: Seq<u8>) -> Option<SimpleType> {
    if l == "boolean".spec_bytes() || l == "bool".spec_bytes() {
        Some(SimpleType::Boolean)
    } else if l == "smallint".spec_bytes() || l == "int2".spec_bytes() || l == "integer".spec_bytes()
        || l == "int".spec_bytes() || l == "int4".spec_bytes() {
        Some(SimpleType::Integer)
    } else if l == "bigint".spec_bytes() || l == "int8".spec_bytes() {
        Some(SimpleType::BigInt)
    } else if l == "real".spec_bytes() || l == "float4".spec_bytes() {
        Some(SimpleType::Float)
    } else if l == "double precision".spec_bytes() || l == "float8".spec_bytes() {
        Some(SimpleType::Double)
    } else if l == "text".spec_bytes() || l == "character".spec_bytes() || l == "char".spec_bytes() {
        Some(SimpleType::Text)
    } else if l == "timestamp".spec_bytes() || l == "timestamp without time zone".spec_bytes() || l
        == "timestamp with time zone".spec_bytes() || l == "timestamptz".spec_bytes() {
        Some(SimpleType::Timestamp)
    } else if l == "date".spec_bytes() {
        Some(SimpleType::Date)
    } else if l == "time".spec_bytes() || l == "time without time zone".spec_bytes() || l
        == "time with time zone".spec_bytes() {
        Some(SimpleType::Time)
    } else if l == "json".spec_bytes() || l == "jsonb".spec_bytes() {
        Some(SimpleType::Json)
    } else if l == "bytea".spec_bytes() {
        Some(SimpleType::Bytes)
    } else if l == "uuid".spec_bytes() {
        Some(SimpleType::Uuid)
    } else {
        None
    }
}

/// Each PostgreSQL alias names the type of its canonical name: `int8` is
/// `bigint` (a big integer); `int2`, `int4`, `int` and `smallint` read as
/// `integer`; `float4` is `real` (a float); `float8` is `double precision`
/// (a double); `bool` is `boolean`.
#[verifier::rlimit(100)]
#[verifier::spinoff_prover]
pub proof fn law_aliases_name_their_canonical_types()
    ensures
        named_type("int8".spec_bytes()) == named_type("bigint".spec_bytes()),
        named_type("bigint".spec_bytes()) == Some(SimpleType::BigInt),
        named_type("int2".spec_bytes()) == named_type("integer".spec_bytes()),
        named_type("int4".spec_bytes()) == named_type("integer".spec_bytes()),
        named_type("int".spec_bytes()) == named_type("integer".spec_bytes()),
        named_type("smallint".spec_bytes()) == named_type("integer".spec_bytes()),
        named_type("integer".spec_bytes()) == Some(SimpleType::Integer),
        named_type("float4".spec_bytes()) == named_type("real".spec_bytes()),
        named_type("real".spec_bytes()) == Some(SimpleType::Float),
        named_type("float8".spec_bytes()) == named_type("double precision".spec_bytes()),
        named_type("double precision".spec_bytes()) == Some(SimpleType::Double),
        named_type("bool".spec_bytes()) == named_type("boolean".spec_bytes()),
        named_type("boolean".spec_bytes()) == Some(SimpleType::Boolean),
{
    reveal_strlit("boolean");
    assert(is_ascii("boolean"));
    is_ascii_spec_bytes("boolean");
    assert("boolean".spec_bytes().len() == 7);
    assert("boolean".spec_bytes()[0] == 98);
    assert("boolean".spec_bytes()[1] == 111);
    reveal_strlit("bool");
    assert(is_ascii("bool"));
    is_ascii_spec_bytes("bool");
    assert("bool".spec_bytes().len() == 4);
    assert("bool".spec_bytes()[0] == 98);
    assert("bool".spec_bytes()[1] == 111);
    reveal_strlit("smallint");
    assert(is_ascii("smallint"));
    is_ascii_spec_bytes("smallint");
    assert("smallint".spec_bytes().len() == 8);
    assert("smallint".spec_bytes()[0] == 115);
    assert("smallint".spec_bytes()[1] == 109);
    reveal_strlit("int2");
    assert(is_ascii("int2"));
    is_ascii_spec_bytes("int2");
    assert("int2".spec_bytes().len() == 4);
    assert("int2".spec_bytes()[0] == 105);
    assert("int2".spec_bytes()[1] == 110);
    assert("int2".spec_bytes()[3] == 50);
    reveal_strlit("integer");
    assert(is_ascii("integer"));
    is_ascii_spec_bytes("integer");
    assert("integer".spec_bytes().len() == 7);
    assert("integer".spec_bytes()[0] == 105);
    assert("integer".spec_bytes()[1] == 110);
    reveal_strlit("int");
    assert(is_ascii("int"));
    is_ascii_spec_bytes("int");
    assert("int".spec_bytes().len() == 3);
    assert("int".spec_bytes()[0] == 105);
    assert("int".spec_bytes()[1] == 110);
    reveal_strlit("int4");
    assert(is_ascii("int4"));
    is_ascii_spec_bytes("int4");
    assert("int4".spec_bytes().len() == 4);
    assert("int4".spec_bytes()[0] == 105);
    assert("int4".spec_bytes()[1] == 110);
    assert("int4".spec_bytes()[3] == 52);
    reveal_strlit("bigint");
    assert(is_ascii("bigint"));
    is_ascii_spec_bytes("bigint");
    assert("bigint".spec_bytes().len() == 6);
    assert("bigint".spec_bytes()[0] == 98);
    assert("bigint".spec_bytes()[1] == 105);
    reveal_strlit("int8");
    assert(is_ascii("int8"));
    is_ascii_spec_bytes("int8");
    assert("int8".spec_bytes().len() == 4);
    assert("int8".spec_bytes()[0] == 105);
    assert("int8".spec_bytes()[1] == 110);
    assert("int8".spec_bytes()[3] == 56);
    reveal_strlit("real");
    assert(is_ascii("real"));
    is_ascii_spec_bytes("real");
    assert("real".spec_bytes().len() == 4);
    assert("real".spec_bytes()[0] == 114);
    assert("real".spec_bytes()[1] == 101);
    reveal_strlit("float4");
    assert(is_ascii("float4"));
    is_ascii_spec_bytes("float4");
    assert("float4".spec_bytes().len() == 6);
    assert("float4".spec_bytes()[0] == 102);
    assert("float4".spec_bytes()[1] == 108);
    reveal_strlit("double precision");
    assert(is_ascii("double precision"));
    is_ascii_spec_bytes("double precision");
    assert("double precision".spec_bytes().len() == 16);
    assert("double precision".spec_bytes()[0] == 100);
    assert("double precision".spec_bytes()[1] == 111);
    reveal_strlit("float8");
    assert(is_ascii("float8"));
    is_ascii_spec_bytes("float8");
    assert("float8".spec_bytes().len() == 6);
    assert("float8".spec_bytes()[0] == 102);
    assert("float8".spec_bytes()[1] == 108);
    assert("bool".spec_bytes()[0] != "int8".spec_bytes()[0]);
    assert("bool".spec_bytes()[0] != "int2".spec_bytes()[0]);
    assert("bool".spec_bytes()[0] != "int4".spec_bytes()[0]);
    assert("boolean".spec_bytes()[0] != "integer".spec_bytes()[0]);
    assert(named_type("int2".spec_bytes()) == Some(SimpleType::Integer));
    assert(named_type("int4".spec_bytes()) == Some(SimpleType::Integer));
    assert("bigint".spec_bytes()[0] != "float4".spec_bytes()[0]);
    assert("bigint".spec_bytes()[0] != "float8".spec_bytes()[0]);
    assert("float4".spec_bytes()[5] != "float8".spec_bytes()[5]);
    assert("bool".spec_bytes()[0] != "real".spec_bytes()[0]);
    assert("int2".spec_bytes()[0] != "real".spec_bytes()[0]);
    assert(named_type("float4".spec_bytes()) == Some(SimpleType::Float));
    assert(named_type("real".spec_bytes()) == Some(SimpleType::Float));
    assert(named_type("float8".spec_bytes()) == Some(SimpleType::Double));
}

/// `char` and `character` read as `text`.
#[verifier::rlimit(100)]
#[verifier::spinoff_prover]
pub proof fn law_text_aliases()
    ensures
        named_type("char".spec_bytes()) == named_type("text".spec_bytes()),
        named_type("character".spec_bytes()) == named_type("text".spec_bytes()),
        named_type("text".spec_bytes()) == Some(SimpleType::Text),
{
    reveal_strlit("boolean");
    assert(is_ascii("boolean"));
    is_ascii_spec_bytes("boolean");
    assert("boolean".spec_bytes().len() == 7);
    assert("boolean".spec_bytes()[0] == 98);
    assert("boolean".spec_bytes()[1] == 111);
    reveal_strlit("bool");
    assert(is_ascii("bool"));
    is_ascii_spec_bytes("bool");
    assert("bool".spec_bytes().len() == 4);
    assert("bool".spec_bytes()[0] == 98);
    assert("bool".spec_bytes()[1] == 111);
    reveal_strlit("smallint");
    assert(is_ascii("smallint"));
    is_ascii_spec_bytes("smallint");
    assert("smallint".spec_bytes().len() == 8);
    assert("smallint".spec_bytes()[0] == 115);
    assert("smallint".spec_bytes()[1] == 109);
    reveal_strlit("int2");
    assert(is_ascii("int2"));
    is_ascii_spec_bytes("int2");
    assert("int2".spec_bytes().len() == 4);
    assert("int2".spec_bytes()[0] == 105);
    assert("int2".spec_bytes()[1] == 110);
    assert("int2".spec_bytes()[3] == 50);
    reveal_strlit("integer");
    assert(is_ascii("integer"));
    is_ascii_spec_bytes("integer");
    assert("integer".spec_bytes().len() == 7);
    assert("integer".spec_bytes()[0] == 105);
    assert("integer".spec_bytes()[1] == 110);
    reveal_strlit("int");
    assert(is_ascii("int"));
    is_ascii_spec_bytes("int");
    assert("int".spec_bytes().len() == 3);
    assert("int".spec_bytes()[0] == 105);
    assert("int".spec_bytes()[1] == 110);
    reveal_strlit("int4");
    assert(is_ascii("int4"));
    is_ascii_spec_bytes("int4");
    assert("int4".spec_bytes().len() == 4);
    assert("int4".spec_bytes()[0] == 105);
    assert("int4".spec_bytes()[1] == 110);
    assert("int4".spec_bytes()[3] == 52);
    reveal_strlit("bigint");
    assert(is_ascii("bigint"));
    is_ascii_spec_bytes("bigint");
    assert("bigint".spec_bytes().len() == 6);
    assert("bigint".spec_bytes()[0] == 98);
    assert("bigint".spec_bytes()[1] == 105);
    reveal_strlit("int8");
    assert(is_ascii("int8"));
    is_ascii_spec_bytes("int8");
    assert("int8".spec_bytes().len() == 4);
    assert("int8".spec_bytes()[0] == 105);
    assert("int8".spec_bytes()[1] == 110);
    assert("int8".spec_bytes()[3] == 56);
    reveal_strlit("real");
    assert(is_ascii("real"));
    is_ascii_spec_bytes("real");
    assert("real".spec_bytes().len() == 4);
    assert("real".spec_bytes()[0] == 114);
    assert("real".spec_bytes()[1] == 101);
    reveal_strlit("float4");
    assert(is_ascii("float4"));
    is_ascii_spec_bytes("float4");
    assert("float4".spec_bytes().len() == 6);
    assert("float4".spec_bytes()[0] == 102);
    assert("float4".spec_bytes()[1] == 108);
    reveal_strlit("double precision");
    assert(is_ascii("double precision"));
    is_ascii_spec_bytes("double precision");
    assert("double precision".spec_bytes().len() == 16);
    assert("double precision".spec_bytes()[0] == 100);
    assert("double precision".spec_bytes()[1] == 111);
    reveal_strlit("float8");
    assert(is_ascii("float8"));
    is_ascii_spec_bytes("float8");
    assert("float8".spec_bytes().len() == 6);
    assert("float8".spec_bytes()[0] == 102);
    assert("float8".spec_bytes()[1] == 108);
    reveal_strlit("text");
    assert(is_ascii("text"));
    is_ascii_spec_bytes("text");
    assert("text".spec_bytes().len() == 4);
    assert("text".spec_bytes()[0] == 116);
    assert("text".spec_bytes()[1] == 101);
    reveal_strlit("character");
    assert(is_ascii("character"));
    is_ascii_spec_bytes("character");
    assert("character".spec_bytes().len() == 9);
    assert("character".spec_bytes()[0] == 99);
    assert("character".spec_bytes()[1] == 104);
    reveal_strlit("char");
    assert(is_ascii("char"));
    is_ascii_spec_bytes("char");
    assert("char".spec_bytes().len() == 4);
    assert("char".spec_bytes()[0] == 99);
    assert("char".spec_bytes()[1] == 104);
}

/// `timestamptz` is `timestamp with time zone`; it and `timestamp without
/// time zone` read as `timestamp`.
#[verifier::rlimit(100)]
#[verifier::spinoff_prover]
pub proof fn law_timestamp_aliases()
    ensures
        named_type("timestamptz".spec_bytes()) == named_type("timestamp with time zone".spec_bytes()),
        named_type("timestamp without time zone".spec_bytes()) == named_type("timestamp".spec_bytes()),
        named_type("timestamp with time zone".spec_bytes()) == named_type("timestamp".spec_bytes()),
        named_type("timestamp".spec_bytes()) == Some(SimpleType::Timestamp),
{
    reveal_strlit("boolean");
    assert(is_ascii("boolean"));
    is_ascii_spec_bytes("boolean");
    assert("boolean".spec_bytes().len() == 7);
    assert("boolean".spec_bytes()[0] == 98);
    assert("boolean".spec_bytes()[1] == 111);
    reveal_strlit("bool");
    assert(is_ascii("bool"));
    is_ascii_spec_bytes("bool");
    assert("bool".spec_bytes().len() == 4);
    assert("bool".spec_bytes()[0] == 98);
    assert("bool".spec_bytes()[1] == 111);
    reveal_strlit("smallint");
    assert(is_ascii("smallint"));
    is_ascii_spec_bytes("smallint");
    assert("smallint".spec_bytes().len() == 8);
    assert("smallint".spec_bytes()[0] == 115);
    assert("smallint".spec_bytes()[1] == 109);
    reveal_strlit("int2");
    assert(is_ascii("int2"));
    is_ascii_spec_bytes("int2");
    assert("int2".spec_bytes().len() == 4);
    assert("int2".spec_bytes()[0] == 105);
    assert("int2".spec_bytes()[1] == 110);
    assert("int2".spec_bytes()[3] == 50);
    reveal_strlit("integer");
    assert(is_ascii("integer"));
    is_ascii_spec_bytes("integer");
    assert("integer".spec_bytes().len() == 7);
    assert("integer".spec_bytes()[0] == 105);
    assert("integer".spec_bytes()[1] == 110);
    reveal_strlit("int");
    assert(is_ascii("int"));
    is_ascii_spec_bytes("int");
    assert("int".spec_bytes().len() == 3);
    assert("int".spec_bytes()[0] == 105);
    assert("int".spec_bytes()[1] == 110);
    reveal_strlit("int4");
    assert(is_ascii("int4"));
    is_ascii_spec_bytes("int4");
    assert("int4".spec_bytes().len() == 4);
    assert("int4".spec_bytes()[0] == 105);
    assert("int4".spec_bytes()[1] == 110);
    assert("int4".spec_bytes()[3] == 52);
    reveal_strlit("bigint");
    assert(is_ascii("bigint"));
    is_ascii_spec_bytes("bigint");
    assert("bigint".spec_bytes().len() == 6);
    assert("bigint".spec_bytes()[0] == 98);
    assert("bigint".spec_bytes()[1] == 105);
    reveal_strlit("int8");
    assert(is_ascii("int8"));
    is_ascii_spec_bytes("int8");
    assert("int8".spec_bytes().len() == 4);
    assert("int8".spec_bytes()[0] == 105);
    assert("int8".spec_bytes()[1] == 110);
    assert("int8".spec_bytes()[3] == 56);
    reveal_strlit("real");
    assert(is_ascii("real"));
    is_ascii_spec_bytes("real");
    assert("real".spec_bytes().len() == 4);
    assert("real".spec_bytes()[0] == 114);
    assert("real".spec_bytes()[1] == 101);
    reveal_strlit("float4");
    assert(is_ascii("float4"));
    is_ascii_spec_bytes("float4");
    assert("float4".spec_bytes().len() == 6);
    assert("float4".spec_bytes()[0] == 102);
    assert("float4".spec_bytes()[1] == 108);
    reveal_strlit("double precision");
    assert(is_ascii("double precision"));
    is_ascii_spec_bytes("double precision");
    assert("double precision".spec_bytes().len() == 16);
    assert("double precision".spec_bytes()[0] == 100);
    assert("double precision".spec_bytes()[1] == 111);
    reveal_strlit("float8");
    assert(is_ascii("float8"));
    is_ascii_spec_bytes("float8");
    assert("float8".spec_bytes().len() == 6);
    assert("float8".spec_bytes()[0] == 102);
    assert("float8".spec_bytes()[1] == 108);
    reveal_strlit("text");
    assert(is_ascii("text"));
    is_ascii_spec_bytes("text");
    assert("text".spec_bytes().len() == 4);
    assert("text".spec_bytes()[0] == 116);
    assert("text".spec_bytes()[1] == 101);
    reveal_strlit("character");
    assert(is_ascii("character"));
    is_ascii_spec_bytes("character");
    assert("character".spec_bytes().len() == 9);
    assert("character".spec_bytes()[0] == 99);
    assert("character".spec_bytes()[1] == 104);
    reveal_strlit("char");
    assert(is_ascii("char"));
    is_ascii_spec_bytes("char");
    assert("char".spec_bytes().len() == 4);
    assert("char".spec_bytes()[0] == 99);
    assert("char".spec_bytes()[1] == 104);
    reveal_strlit("timestamp");
    assert(is_ascii("timestamp"));
    is_ascii_spec_bytes("timestamp");
    assert("timestamp".spec_bytes().len() == 9);
    assert("timestamp".spec_bytes()[0] == 116);
    assert("timestamp".spec_bytes()[1] == 105);
    reveal_strlit("timestamp without time zone");
    assert(is_ascii("timestamp without time zone"));
    is_ascii_spec_bytes("timestamp without time zone");
    assert("timestamp without time zone".spec_bytes().len() == 27);
    assert("timestamp without time zone".spec_bytes()[0] == 116);
    assert("timestamp without time zone".spec_bytes()[1] == 105);
    reveal_strlit("timestamp with time zone");
    assert(is_ascii("timestamp with time zone"));
    is_ascii_spec_bytes("timestamp with time zone");
    assert("timestamp with time zone".spec_bytes().len() == 24);
    assert("timestamp with time zone".spec_bytes()[0] == 116);
    assert("timestamp with time zone".spec_bytes()[1] == 105);
    reveal_strlit("timestamptz");
    assert(is_ascii("timestamptz"));
    is_ascii_spec_bytes("timestamptz");
    assert("timestamptz".spec_bytes().len() == 11);
    assert("timestamptz".spec_bytes()[0] == 116);
    assert("timestamptz".spec_bytes()[1] == 105);
}

/// `time without time zone` and `time with time zone` read as `time`;
/// `date` names the date type.
#[verifier::rlimit(100)]
#[verifier::spinoff_prover]
pub proof fn law_time_and_date_names()
    ensures
        named_type("time without time zone".spec_bytes()) == named_type("time".spec_bytes()),
        named_type("time with time zone".spec_bytes()) == named_type("time".spec_bytes()),
        named_type("time".spec_bytes()) == Some(SimpleType::Time),
        named_type("date".spec_bytes()) == Some(SimpleType::Date),
{
    reveal_strlit("boolean");
    assert(is_ascii("boolean"));
    is_ascii_spec_bytes("boolean");
    assert("boolean".spec_bytes().len() == 7);
    assert("boolean".spec_bytes()[0] == 98);
    assert("boolean".spec_bytes()[1] == 111);
    reveal_strlit("bool");
    assert(is_ascii("bool"));
    is_ascii_spec_bytes("bool");
    assert("bool".spec_bytes().len() == 4);
    assert("bool".spec_bytes()[0] == 98);
    assert("bool".spec_bytes()[1] == 111);
    reveal_strlit("smallint");
    assert(is_ascii("smallint"));
    is_ascii_spec_bytes("smallint");
    assert("smallint".spec_bytes().len() == 8);
    assert("smallint".spec_bytes()[0] == 115);
    assert("smallint".spec_bytes()[1] == 109);
    reveal_strlit("int2");
    assert(is_ascii("int2"));
    is_ascii_spec_bytes("int2");
    assert("int2".spec_bytes().len() == 4);
    assert("int2".spec_bytes()[0] == 105);
    assert("int2".spec_bytes()[1] == 110);
    assert("int2".spec_bytes()[3] == 50);
    reveal_strlit("integer");
    assert(is_ascii("integer"));
    is_ascii_spec_bytes("integer");
    assert("integer".spec_bytes().len() == 7);
    assert("integer".spec_bytes()[0] == 105);
    assert("integer".spec_bytes()[1] == 110);
    reveal_strlit("int");
    assert(is_ascii("int"));
    is_ascii_spec_bytes("int");
    assert("int".spec_bytes().len() == 3);
    assert("int".spec_bytes()[0] == 105);
    assert("int".spec_bytes()[1] == 110);
    reveal_strlit("int4");
    assert(is_ascii("int4"));
    is_ascii_spec_bytes("int4");
    assert("int4".spec_bytes().len() == 4);
    assert("int4".spec_bytes()[0] == 105);
    assert("int4".spec_bytes()[1] == 110);
    assert("int4".spec_bytes()[3] == 52);
    reveal_strlit("bigint");
    assert(is_ascii("bigint"));
    is_ascii_spec_bytes("bigint");
    assert("bigint".spec_bytes().len() == 6);
    assert("bigint".spec_bytes()[0] == 98);
    assert("bigint".spec_bytes()[1] == 105);
    reveal_strlit("int8");
    assert(is_ascii("int8"));
    is_ascii_spec_bytes("int8");
    assert("int8".spec_bytes().len() == 4);
    assert("int8".spec_bytes()[0] == 105);
    assert("int8".spec_bytes()[1] == 110);
    assert("int8".spec_bytes()[3] == 56);
    reveal_strlit("real");
    assert(is_ascii("real"));
    is_ascii_spec_bytes("real");
    assert("real".spec_bytes().len() == 4);
    assert("real".spec_bytes()[0] == 114);
    assert("real".spec_bytes()[1] == 101);
    reveal_strlit("float4");
    assert(is_ascii("float4"));
    is_ascii_spec_bytes("float4");
    assert("float4".spec_bytes().len() == 6);
    assert("float4".spec_bytes()[0] == 102);
    assert("float4".spec_bytes()[1] == 108);
    reveal_strlit("double precision");
    assert(is_ascii("double precision"));
    is_ascii_spec_bytes("double precision");
    assert("double precision".spec_bytes().len() == 16);
    assert("double precision".spec_bytes()[0] == 100);
    assert("double precision".spec_bytes()[1] == 111);
    reveal_strlit("float8");
    assert(is_ascii("float8"));
    is_ascii_spec_bytes("float8");
    assert("float8".spec_bytes().len() == 6);
    assert("float8".spec_bytes()[0] == 102);
    assert("float8".spec_bytes()[1] == 108);
    reveal_strlit("text");
    assert(is_ascii("text"));
    is_ascii_spec_bytes("text");
    assert("text".spec_bytes().len() == 4);
    assert("text".spec_bytes()[0] == 116);
    assert("text".spec_bytes()[1] == 101);
    reveal_strlit("character");
    assert(is_ascii("character"));
    is_ascii_spec_bytes("character");
    assert("character".spec_bytes().len() == 9);
    assert("character".spec_bytes()[0] == 99);
    assert("character".spec_bytes()[1] == 104);
    reveal_strlit("char");
    assert(is_ascii("char"));
    is_ascii_spec_bytes("char");
    assert("char".spec_bytes().len() == 4);
    assert("char".spec_bytes()[0] == 99);
    assert("char".spec_bytes()[1] == 104);
    reveal_strlit("timestamp");
    assert(is_ascii("timestamp"));
    is_ascii_spec_bytes("timestamp");
    assert("timestamp".spec_bytes().len() == 9);
    assert("timestamp".spec_bytes()[0] == 116);
    assert("timestamp".spec_bytes()[1] == 105);
    reveal_strlit("timestamp without time zone");
    assert(is_ascii("timestamp without time zone"));
    is_ascii_spec_bytes("timestamp without time zone");
    assert("timestamp without time zone".spec_bytes().len() == 27);
    assert("timestamp without time zone".spec_bytes()[0] == 116);
    assert("timestamp without time zone".spec_bytes()[1] == 105);
    reveal_strlit("timestamp with time zone");
    assert(is_ascii("timestamp with time zone"));
    is_ascii_spec_bytes("timestamp with time zone");
    assert("timestamp with time zone".spec_bytes().len() == 24);
    assert("timestamp with time zone".spec_bytes()[0] == 116);
    assert("timestamp with time zone".spec_bytes()[1] == 105);
    reveal_strlit("timestamptz");
    assert(is_ascii("timestamptz"));
    is_ascii_spec_bytes("timestamptz");
    assert("timestamptz".spec_bytes().len() == 11);
    assert("timestamptz".spec_bytes()[0] == 116);
    assert("timestamptz".spec_bytes()[1] == 105);
    reveal_strlit("date");
    assert(is_ascii("date"));
    is_ascii_spec_bytes("date");
    assert("date".spec_bytes().len() == 4);
    assert("date".spec_bytes()[0] == 100);
    assert("date".spec_bytes()[1] == 97);
    reveal_strlit("time");
    assert(is_ascii("time"));
    is_ascii_spec_bytes("time");
    assert("time".spec_bytes().len() == 4);
    assert("time".spec_bytes()[0] == 116);
    assert("time".spec_bytes()[1] == 105);
    reveal_strlit("time without time zone");
    assert(is_ascii("time without time zone"));
    is_ascii_spec_bytes("time without time zone");
    assert("time without time zone".spec_bytes().len() == 22);
    assert("time without time zone".spec_bytes()[0] == 116);
    assert("time without time zone".spec_bytes()[1] == 105);
    reveal_strlit("time with time zone");
    assert(is_ascii("time with time zone"));
    is_ascii_spec_bytes("time with time zone");
    assert("time with time zone".spec_bytes().len() == 19);
    assert("time with time zone".spec_bytes()[0] == 116);
    assert("time with time zone".spec_bytes()[1] == 105);
}

/// `jsonb` reads as `json`.
#[verifier::rlimit(100)]
#[verifier::spinoff_prover]
pub proof fn law_json_names()
    ensures
        named_type("jsonb".spec_bytes()) == named_type("json".spec_bytes()),
        named_type("json".spec_bytes()) == Some(SimpleType::Json),
{
    reveal_strlit("boolean");
    assert(is_ascii("boolean"));
    is_ascii_spec_bytes("boolean");
    assert("boolean".spec_bytes().len() == 7);
    assert("boolean".spec_bytes()[0] == 98);
    assert("boolean".spec_bytes()[1] == 111);
    reveal_strlit("bool");
    assert(is_ascii("bool"));
    is_ascii_spec_bytes("bool");
    assert("bool".spec_bytes().len() == 4);
    assert("bool".spec_bytes()[0] == 98);
    assert("bool".spec_bytes()[1] == 111);
    reveal_strlit("smallint");
    assert(is_ascii("smallint"));
    is_ascii_spec_bytes("smallint");
    assert("smallint".spec_bytes().len() == 8);
    assert("smallint".spec_bytes()[0] == 115);
    assert("smallint".spec_bytes()[1] == 109);
    reveal_strlit("int2");
    assert(is_ascii("int2"));
    is_ascii_spec_bytes("int2");
    assert("int2".spec_bytes().len() == 4);
    assert("int2".spec_bytes()[0] == 105);
    assert("int2".spec_bytes()[1] == 110);
    assert("int2".spec_bytes()[3] == 50);
    reveal_strlit("integer");
    assert(is_ascii("integer"));
    is_ascii_spec_bytes("integer");
    assert("integer".spec_bytes().len() == 7);
    assert("integer".spec_bytes()[0] == 105);
    assert("integer".spec_bytes()[1] == 110);
    reveal_strlit("int");
    assert(is_ascii("int"));
    is_ascii_spec_bytes("int");
    assert("int".spec_bytes().len() == 3);
    assert("int".spec_bytes()[0] == 105);
    assert("int".spec_bytes()[1] == 110);
    reveal_strlit("int4");
    assert(is_ascii("int4"));
    is_ascii_spec_bytes("int4");
    assert("int4".spec_bytes().len() == 4);
    assert("int4".spec_bytes()[0] == 105);
    assert("int4".spec_bytes()[1] == 110);
    assert("int4".spec_bytes()[3] == 52);
    reveal_strlit("bigint");
    assert(is_ascii("bigint"));
    is_ascii_spec_bytes("bigint");
    assert("bigint".spec_bytes().len() == 6);
    assert("bigint".spec_bytes()[0] == 98);
    assert("bigint".spec_bytes()[1] == 105);
    reveal_strlit("int8");
    assert(is_ascii("int8"));
    is_ascii_spec_bytes("int8");
    assert("int8".spec_bytes().len() == 4);
    assert("int8".spec_bytes()[0] == 105);
    assert("int8".spec_bytes()[1] == 110);
    assert("int8".spec_bytes()[3] == 56);
    reveal_strlit("real");
    assert(is_ascii("real"));
    is_ascii_spec_bytes("real");
    assert("real".spec_bytes().len() == 4);
    assert("real".spec_bytes()[0] == 114);
    assert("real".spec_bytes()[1] == 101);
    reveal_strlit("float4");
    assert(is_ascii("float4"));
    is_ascii_spec_bytes("float4");
    assert("float4".spec_bytes().len() == 6);
    assert("float4".spec_bytes()[0] == 102);
    assert("float4".spec_bytes()[1] == 108);
    reveal_strlit("double precision");
    assert(is_ascii("double precision"));
    is_ascii_spec_bytes("double precision");
    assert("double precision".spec_bytes().len() == 16);
    assert("double precision".spec_bytes()[0] == 100);
    assert("double precision".spec_bytes()[1] == 111);
    reveal_strlit("float8");
    assert(is_ascii("float8"));
    is_ascii_spec_bytes("float8");
    assert("float8".spec_bytes().len() == 6);
    assert("float8".spec_bytes()[0] == 102);
    assert("float8".spec_bytes()[1] == 108);
    reveal_strlit("text");
    assert(is_ascii("text"));
    is_ascii_spec_bytes("text");
    assert("text".spec_bytes().len() == 4);
    assert("text".spec_bytes()[0] == 116);
    assert("text".spec_bytes()[1] == 101);
    reveal_strlit("character");
    assert(is_ascii("character"));
    is_ascii_spec_bytes("character");
    assert("character".spec_bytes().len() == 9);
    assert("character".spec_bytes()[0] == 99);
    assert("character".spec_bytes()[1] == 104);
    reveal_strlit("char");
    assert(is_ascii("char"));
    is_ascii_spec_bytes("char");
    assert("char".spec_bytes().len() == 4);
    assert("char".spec_bytes()[0] == 99);
    assert("char".spec_bytes()[1] == 104);
    reveal_strlit("timestamp");
    assert(is_ascii("timestamp"));
    is_ascii_spec_bytes("timestamp");
    assert("timestamp".spec_bytes().len() == 9);
    assert("timestamp".spec_bytes()[0] == 116);
    assert("timestamp".spec_bytes()[1] == 105);
    reveal_strlit("timestamp without time zone");
    assert(is_ascii("timestamp without time zone"));
    is_ascii_spec_bytes("timestamp without time zone");
    assert("timestamp without time zone".spec_bytes().len() == 27);
    assert("timestamp without time zone".spec_bytes()[0] == 116);
    assert("timestamp without time zone".spec_bytes()[1] == 105);
    reveal_strlit("timestamp with time zone");
    assert(is_ascii("timestamp with time zone"));
    is_ascii_spec_bytes("timestamp with time zone");
    assert("timestamp with time zone".spec_bytes().len() == 24);
    assert("timestamp with time zone".spec_bytes()[0] == 116);
    assert("timestamp with time zone".spec_bytes()[1] == 105);
    reveal_strlit("timestamptz");
    assert(is_ascii("timestamptz"));
    is_ascii_spec_bytes("timestamptz");
    assert("timestamptz".spec_bytes().len() == 11);
    assert("timestamptz".spec_bytes()[0] == 116);
    assert("timestamptz".spec_bytes()[1] == 105);
    reveal_strlit("date");
    assert(is_ascii("date"));
    is_ascii_spec_bytes("date");
    assert("date".spec_bytes().len() == 4);
    assert("date".spec_bytes()[0] == 100);
    assert("date".spec_bytes()[1] == 97);
    reveal_strlit("time");
    assert(is_ascii("time"));
    is_ascii_spec_bytes("time");
    assert("time".spec_bytes().len() == 4);
    assert("time".spec_bytes()[0] == 116);
    assert("time".spec_bytes()[1] == 105);
    reveal_strlit("time without time zone");
    assert(is_ascii("time without time zone"));
    is_ascii_spec_bytes("time without time zone");
    assert("time without time zone".spec_bytes().len() == 22);
    assert("time without time zone".spec_bytes()[0] == 116);
    assert("time without time zone".spec_bytes()[1] == 105);
    reveal_strlit("time with time zone");
    assert(is_ascii("time with time zone"));
    is_ascii_spec_bytes("time with time zone");
    assert("time with time zone".spec_bytes().len() == 19);
    assert("time with time zone".spec_bytes()[0] == 116);
    assert("time with time zone".spec_bytes()[1] == 105);
    reveal_strlit("json");
    assert(is_ascii("json"));
    is_ascii_spec_bytes("json");
    assert("json".spec_bytes().len() == 4);
    assert("json".spec_bytes()[0] == 106);
    assert("json".spec_bytes()[1] == 115);
    reveal_strlit("jsonb");
    assert(is_ascii("jsonb"));
    is_ascii_spec_bytes("jsonb");
    assert("jsonb".spec_bytes().len() == 5);
    assert("jsonb".spec_bytes()[0] == 106);
    assert("jsonb".spec_bytes()[1] == 115);
}

/// `bytea` and `uuid` name their own types.
#[verifier::rlimit(100)]
#[verifier::spinoff_prover]
pub proof fn law_bytes_and_uuid_names()
    ensures
        named_type("bytea".spec_bytes()) == Some(SimpleType::Bytes),
        named_type("uuid".spec_bytes()) == Some(SimpleType::Uuid),
{
    reveal_strlit("boolean");
    assert(is_ascii("boolean"));
    is_ascii_spec_bytes("boolean");
    assert("boolean".spec_bytes().len() == 7);
    assert("boolean".spec_bytes()[0] == 98);
    assert("boolean".spec_bytes()[1] == 111);
    reveal_strlit("bool");
    assert(is_ascii("bool"));
    is_ascii_spec_bytes("bool");
    assert("bool".spec_bytes().len() == 4);
    assert("bool".spec_bytes()[0] == 98);
    assert("bool".spec_bytes()[1] == 111);
    reveal_strlit("smallint");
    assert(is_ascii("smallint"));
    is_ascii_spec_bytes("smallint");
    assert("smallint".spec_bytes().len() == 8);
    assert("smallint".spec_bytes()[0] == 115);
    assert("smallint".spec_bytes()[1] == 109);
    reveal_strlit("int2");
    assert(is_ascii("int2"));
    is_ascii_spec_bytes("int2");
    assert("int2".spec_bytes().len() == 4);
    assert("int2".spec_bytes()[0] == 105);
    assert("int2".spec_bytes()[1] == 110);
    assert("int2".spec_bytes()[3] == 50);
    reveal_strlit("integer");
    assert(is_ascii("integer"));
    is_ascii_spec_bytes("integer");
    assert("integer".spec_bytes().len() == 7);
    assert("integer".spec_bytes()[0] == 105);
    assert("integer".spec_bytes()[1] == 110);
    reveal_strlit("int");
    assert(is_ascii("int"));
    is_ascii_spec_bytes("int");
    assert("int".spec_bytes().len() == 3);
    assert("int".spec_bytes()[0] == 105);
    assert("int".spec_bytes()[1] == 110);
    reveal_strlit("int4");
    assert(is_ascii("int4"));
    is_ascii_spec_bytes("int4");
    assert("int4".spec_bytes().len() == 4);
    assert("int4".spec_bytes()[0] == 105);
    assert("int4".spec_bytes()[1] == 110);
    assert("int4".spec_bytes()[3] == 52);
    reveal_strlit("bigint");
    assert(is_ascii("bigint"));
    is_ascii_spec_bytes("bigint");
    assert("bigint".spec_bytes().len() == 6);
    assert("bigint".spec_bytes()[0] == 98);
    assert("bigint".spec_bytes()[1] == 105);
    reveal_strlit("int8");
    assert(is_ascii("int8"));
    is_ascii_spec_bytes("int8");
    assert("int8".spec_bytes().len() == 4);
    assert("int8".spec_bytes()[0] == 105);
    assert("int8".spec_bytes()[1] == 110);
    assert("int8".spec_bytes()[3] == 56);
    reveal_strlit("real");
    assert(is_ascii("real"));
    is_ascii_spec_bytes("real");
    assert("real".spec_bytes().len() == 4);
    assert("real".spec_bytes()[0] == 114);
    assert("real".spec_bytes()[1] == 101);
    reveal_strlit("float4");
    assert(is_ascii("float4"));
    is_ascii_spec_bytes("float4");
    assert("float4".spec_bytes().len() == 6);
    assert("float4".spec_bytes()[0] == 102);
    assert("float4".spec_bytes()[1] == 108);
    reveal_strlit("double precision");
    assert(is_ascii("double precision"));
    is_ascii_spec_bytes("double precision");
    assert("double precision".spec_bytes().len() == 16);
    assert("double precision".spec_bytes()[0] == 100);
    assert("double precision".spec_bytes()[1] == 111);
    reveal_strlit("float8");
    assert(is_ascii("float8"));
    is_ascii_spec_bytes("float8");
    assert("float8".spec_bytes().len() == 6);
    assert("float8".spec_bytes()[0] == 102);
    assert("float8".spec_bytes()[1] == 108);
    reveal_strlit("text");
    assert(is_ascii("text"));
    is_ascii_spec_bytes("text");
    assert("text".spec_bytes().len() == 4);
    assert("text".spec_bytes()[0] == 116);
    assert("text".spec_bytes()[1] == 101);
    reveal_strlit("character");
    assert(is_ascii("character"));
    is_ascii_spec_bytes("character");
    assert("character".spec_bytes().len() == 9);
    assert("character".spec_bytes()[0] == 99);
    assert("character".spec_bytes()[1] == 104);
    reveal_strlit("char");
    assert(is_ascii("char"));
    is_ascii_spec_bytes("char");
    assert("char".spec_bytes().len() == 4);
    assert("char".spec_bytes()[0] == 99);
    assert("char".spec_bytes()[1] == 104);
    reveal_strlit("timestamp");
    assert(is_ascii("timestamp"));
    is_ascii_spec_bytes("timestamp");
    assert("timestamp".spec_bytes().len() == 9);
    assert("timestamp".spec_bytes()[0] == 116);
    assert("timestamp".spec_bytes()[1] == 105);
    reveal_strlit("timestamp without time zone");
    assert(is_ascii("timestamp without time zone"));
    is_ascii_spec_bytes("timestamp without time zone");
    assert("timestamp without time zone".spec_bytes().len() == 27);
    assert("timestamp without time zone".spec_bytes()[0] == 116);
    assert("timestamp without time zone".spec_bytes()[1] == 105);
    reveal_strlit("timestamp with time zone");
    assert(is_ascii("timestamp with time zone"));
    is_ascii_spec_bytes("timestamp with time zone");
    assert("timestamp with time zone".spec_bytes().len() == 24);
    assert("timestamp with time zone".spec_bytes()[0] == 116);
    assert("timestamp with time zone".spec_bytes()[1] == 105);
    reveal_strlit("timestamptz");
    assert(is_ascii("timestamptz"));
    is_ascii_spec_bytes("timestamptz");
    assert("timestamptz".spec_bytes().len() == 11);
    assert("timestamptz".spec_bytes()[0] == 116);
    assert("timestamptz".spec_bytes()[1] == 105);
    reveal_strlit("date");
    assert(is_ascii("date"));
    is_ascii_spec_bytes("date");
    assert("date".spec_bytes().len() == 4);
    assert("date".spec_bytes()[0] == 100);
    assert("date".spec_bytes()[1] == 97);
    reveal_strlit("time");
    assert(is_ascii("time"));
    is_ascii_spec_bytes("time");
    assert("time".spec_bytes().len() == 4);
    assert("time".spec_bytes()[0] == 116);
    assert("time".spec_bytes()[1] == 105);
    reveal_strlit("time without time zone");
    assert(is_ascii("time without time zone"));
    is_ascii_spec_bytes("time without time zone");
    assert("time without time zone".spec_bytes().len() == 22);
    assert("time without time zone".spec_bytes()[0] == 116);
    assert("time without time zone".spec_bytes()[1] == 105);
    reveal_strlit("time with time zone");
    assert(is_ascii("time with time zone"));
    is_ascii_spec_bytes("time with time zone");
    assert("time with time zone".spec_bytes().len() == 19);
    assert("time with time zone".spec_bytes()[0] == 116);
    assert("time with time zone".spec_bytes()[1] == 105);
    reveal_strlit("json");
    assert(is_ascii("json"));
    is_ascii_spec_bytes("json");
    assert("json".spec_bytes().len() == 4);
    assert("json".spec_bytes()[0] == 106);
    assert("json".spec_bytes()[1] == 115);
    reveal_strlit("jsonb");
    assert(is_ascii("jsonb"));
    is_ascii_spec_bytes("jsonb");
    assert("jsonb".spec_bytes().len() == 5);
    assert("jsonb".spec_bytes()[0] == 106);
    assert("jsonb".spec_bytes()[1] == 115);
    reveal_strlit("bytea");
    assert(is_ascii("bytea"));
    is_ascii_spec_bytes("bytea");
    assert("bytea".spec_bytes().len() == 5);
    assert("bytea".spec_bytes()[0] == 98);
    assert("bytea".spec_bytes()[1] == 121);
    reveal_strlit("uuid");
    assert(is_ascii("uuid"));
    is_ascii_spec_bytes("uuid");
    assert("uuid".spec_bytes().len() == 4);
    assert("uuid".spec_bytes()[0] == 117);
    assert("uuid".spec_bytes()[1] == 117);
}

/// The type a name stands for, given its bytes `b` and the bytes `l` of its
/// lowercase form: a varchar (with its length where the parameter reads as
/// one), a decimal with both parameters, a known name, or nothing (kept as
/// written).
pub open spec fn spec_pg_type(b: Seq<u8>, l: Seq<u8>) -> Option<SimpleType> {
    if is_varchar(l) {
        Some(SimpleType::Varchar { len: varchar_len(b) })
    } else if is_numeric(l) && decimal_params(b) is Some {
        let (p, s) = decimal_params(b)->0;
        Some(SimpleType::Decimal { precision: p, scale: s })
    } else {
        named_type(l)
    }
}

/// The text between the first `(` (exclusive) and the first `)` of `pg_type`,
/// which comes no earlier.
fn between_parens(pg_type: &str, start: usize, end: usize) -> (res: &str)
    requires
        parens(pg_type.spec_bytes()) == Some((start as int, end as int)),
        start + 1 <= end,
    ensures
        res.spec_bytes() == pg_type.spec_bytes().subrange(start + 1, end as int),
{
    proof {
        let b = pg_type.spec_bytes();
        lemma_first_byte(b, 40u8);
        lemma_first_byte(b, 41u8);
        lemma_str_valid(pg_type);
        lemma_safe_after_ascii(b, start as int);
        assert(safe_pos(b, end as int));
    }
    substring_safe(pg_type, start + 1, end)
}

/// The first `(` and the first `)` of the bytes.
fn find_parens(b: &[u8]) -> (res: Option<(usize, usize)>)
    ensures
        res is None <==> parens(b@) is None,
        res matches Some((o, c)) ==> parens(b@) == Some((o as int, c as int)) && o < b@.len() && c < b@.len(),
{
    let o = find_byte(b, 40u8)?;
    let c = find_byte(b, 41u8)?;
    Some((o, c))
}

/// The precision and scale inside the parentheses, where there are exactly
/// two byte-sized numbers.
fn read_decimal_params(pg_type: &str) -> (res: Option<(u8, u8)>)
    requires
        parens(pg_type.spec_bytes()) matches Some((o, c)) ==> o + 1 <= c,
    ensures
        res == decimal_params(pg_type.spec_bytes()),
{
    let ghost b = pg_type.spec_bytes();
    let (start, end) = find_parens(pg_type.as_bytes())?;
    let inner = between_parens(pg_type, start, end);
    let ib = inner.as_bytes();
    let ghost ibs = ib@;
    assert(ibs == b.subrange(start + 1, end as int));
    let k = find_byte(ib, 44u8)?;
    if has_byte_from(ib, 44u8, k + 1) {
        return None;
    }
    proof {
        lemma_str_valid(inner);
        lemma_safe_after_ascii(ibs, k as int);
        assert(safe_pos(ibs, k as int));
        assert(safe_pos(ibs, 0));
        assert(safe_pos(ibs, ibs.len() as int));
    }
    let left = substring_safe(inner, 0, k);
    let right = substring_safe(inner, k + 1, ib.len());
    proof {
        encode_utf8_decode_utf8(left@);
        encode_utf8_decode_utf8(right@);
    }
    let tl = str_trim(left);
    let tr = str_trim(right);
    let p = parse_unsigned_bytes(tl.as_bytes(), 255)?;
    let s = parse_unsigned_bytes(tr.as_bytes(), 255)?;
    Some((p as u8, s as u8))
}

/// The known type a lowercase name spells exactly.
fn known_type(lb: &[u8]) -> (res: Option<SimpleType>)
    ensures
        res == named_type(lb@),
{
    if eq_bytes(lb, "boolean") || eq_bytes(lb, "bool") {
        Some(SimpleType::Boolean)
    } else if eq_bytes(lb, "smallint") || eq_bytes(lb, "int2") || eq_bytes(lb, "integer") || eq_bytes(lb, "int")
        || eq_bytes(lb, "int4") {
        Some(SimpleType::Integer)
    } else if eq_bytes(lb, "bigint") || eq_bytes(lb, "int8") {
        Some(SimpleType::BigInt)
    } else if eq_bytes(lb, "real") || eq_bytes(lb, "float4") {
        Some(SimpleType::Float)
    } else if eq_bytes(lb, "double precision") || eq_bytes(lb, "float8") {
        Some(SimpleType::Double)
    } else if eq_bytes(lb, "text") || eq_bytes(lb, "character") || eq_bytes(lb, "char") {
        Some(SimpleType::Text)
    } else if eq_bytes(lb, "timestamp") || eq_bytes(lb, "timestamp without time zone") || eq_bytes(
        lb,
        "timestamp with time zone",
    ) || eq_bytes(lb, "timestamptz") {
        Some(SimpleType::Timestamp)
    } else if eq_bytes(lb, "date") {
        Some(SimpleType::Date)
    } else if eq_bytes(lb, "time") || eq_bytes(lb, "time without time zone") || eq_bytes(lb, "time with time zone") {
        Some(SimpleType::Time)
    } else if eq_bytes(lb, "json") || eq_bytes(lb, "jsonb") {
        Some(SimpleType::Json)
    } else if eq_bytes(lb, "bytea") {
        Some(SimpleType::Bytes)
    } else if eq_bytes(lb, "uuid") {
        Some(SimpleType::Uuid)
    } else {
        None
    }
}

/// The length parameter of a varchar name: the text between its first `(`
/// and first `)`, where both occur and it reads as a `u32`.
pub open spec fn varchar_len(b: Seq<u8>) -> Option<u32> {
    match parens(b) {
        Some((o, c)) => match spec_parse_unsigned(b.subrange(o + 1, c), 0xffff_ffffu64) {
            Some(n) => Some(n as u32),
            None => None,
        },
        None => None,
    }
}

/// The length inside the parentheses, where it reads as a `u32`.
fn read_varchar_len(pg_type: &str) -> (res: Option<u32>)
    requires
        parens(pg_type.spec_bytes()) matches Some((o, c)) ==> o + 1 <= c,
    ensures
        res == varchar_len(pg_type.spec_bytes()),
{
    let (start, end) = find_parens(pg_type.as_bytes())?;
    let inner = between_parens(pg_type, start, end);
    let n = parse_unsigned_bytes(inner.as_bytes(), 0xffff_ffffu64)?;
    Some(n as u32)
}

/// Read a type name as PostgreSQL reports it: `character varying(n)` and
/// `varchar(n)` give a varchar with its length where `n` reads as one,
/// `numeric(p, s)` and `decimal(p, s)` a decimal, the known names (matched
/// on their lowercase form) their types, and any other name is kept as
/// written.
pub fn parse_postgres_type(pg_type: &str) -> (res: SimpleType)
    requires
        !params_cut_backwards(pg_type.spec_bytes(), encode_utf8(lowercase(pg_type@))),
    ensures
        match spec_pg_type(pg_type.spec_bytes(), encode_utf8(lowercase(pg_type@))) {
            Some(t) => res == t,
            None => res matches SimpleType::Other(s) && s@ == pg_type@,
        },
{
    let lower = to_lowercase(pg_type);
    let lb = lower.as_str().as_bytes();
    if bytes_start_with(lb, "character varying".as_bytes()) || bytes_start_with(lb, "varchar".as_bytes()) {
        return SimpleType::Varchar { len: read_varchar_len(pg_type) };
    }
    if bytes_start_with(lb, "numeric".as_bytes()) || bytes_start_with(lb, "decimal".as_bytes()) {
        if let Some((precision, scale)) = read_decimal_params(pg_type) {
            return SimpleType::Decimal { precision, scale };
        }
    }
    match known_type(lb) {
        Some(t) => t,
        None => SimpleType::Other(pg_type.to_owned()),
    }
}

/// [`parse_postgres_type`] where the name's parameters can be read: nothing
/// for a varchar or decimal name whose first `)` comes before its first `(`.
pub fn try_parse_postgres_type(pg_type: &str) -> (res: Option<SimpleType>)
    ensures
        params_cut_backwards(pg_type.spec_bytes(), encode_utf8(lowercase(pg_type@))) <==> res is None,
        res matches Some(r) ==> match spec_pg_type(pg_type.spec_bytes(), encode_utf8(lowercase(pg_type@))) {
            Some(t) => r == t,
            None => r matches SimpleType::Other(s) && s@ == pg_type@,
        },
{
    let lower = to_lowercase(pg_type);
    let lb = lower.as_str().as_bytes();
    let typed = bytes_start_with(lb, "character varying".as_bytes()) || bytes_start_with(lb, "varchar".as_bytes())
        || bytes_start_with(lb, "numeric".as_bytes()) || bytes_start_with(lb, "decimal".as_bytes());
    if typed {
        if let Some((start, end)) = find_parens(pg_type.as_bytes()) {
            if end <= start {
                return None;
            }
        }
    }
    Some(parse_postgres_type(pg_type))
}

} // verus!
