//! Byte-level facts about UTF-8 text used by the lexer and the cursor logic.
use vstd::prelude::*;
use vstd::utf8::*;
use vstd::string::*;

verus! {

/// A byte position of `b` at which a token may begin or end: the end of the
/// text, or a byte that starts a character.
pub open spec fn safe_pos(b: Seq<u8>, p: int) -> bool {
    0 <= p <= b.len() && (p == b.len() || !is_continuation_byte(b[p]))
}

/// The bytes of any string slice form valid UTF-8.
pub proof fn lemma_str_valid(s: &str)
    ensures
        valid_utf8(s.spec_bytes()),
{
    encode_utf8_valid_utf8(s@);
}

/// In valid UTF-8 a position is a character boundary exactly when it is safe.
pub proof fn lemma_boundary_iff_safe(b: Seq<u8>, p: int)
    requires
        valid_utf8(b),
        0 <= p <= b.len(),
    ensures
        is_char_boundary(b, p) <==> safe_pos(b, p),
{
    is_char_boundary_start_end_of_seq(b);
    if p < b.len() {
        is_char_boundary_iff_not_is_continuation_byte(b, p);
    }
}

proof fn lemma_boundary_after_ascii(b: Seq<u8>, i: int)
    requires
        valid_utf8(b),
        0 <= i < b.len(),
        is_char_boundary(b, i),
        b[i] < 0x80,
    ensures
        is_char_boundary(b, i + 1),
    decreases b.len(),
{
    reveal_with_fuel(is_char_boundary, 2);
    if i == 0 {
        assert(length_of_first_scalar(b) == 1);
        assert(is_char_boundary(pop_first_scalar(b), 0));
    } else {
        let l = length_of_first_scalar(b);
        let rest = pop_first_scalar(b);
        assert(rest.len() == b.len() - l);
        assert(is_char_boundary(rest, i - l));
        if i - l == 0 {
            assert(rest[0] == b[i]);
            assert(is_char_boundary(rest, 0));
        } else {
            assert(rest[i - l] == b[i]);
        }
        lemma_boundary_after_ascii(rest, i - l);
        assert(is_char_boundary(rest, i + 1 - l));
    }
}

/// In valid UTF-8 the position after an ASCII byte is safe.
pub proof fn lemma_safe_after_ascii(b: Seq<u8>, i: int)
    requires
        valid_utf8(b),
        0 <= i < b.len(),
        b[i] < 0x80,
    ensures
        safe_pos(b, i + 1),
{
    lemma_boundary_iff_safe(b, i);
    lemma_boundary_after_ascii(b, i);
    lemma_boundary_iff_safe(b, i + 1);
}

/// The text between two character boundaries of `s`.
pub fn substring(s: &str, start: usize, end: usize) -> (res: &str)
    requires
        start <= end <= s.spec_bytes().len(),
        is_char_boundary(s.spec_bytes(), start as int),
        is_char_boundary(s.spec_bytes(), end as int),
    ensures
        res.spec_bytes() == s.spec_bytes().subrange(start as int, end as int),
{
    let ghost b = s.spec_bytes();
    proof {
        lemma_str_valid(s);
    }
    let (_, rest) = s.split_at(start);
    proof {
        let r = rest.spec_bytes();
        valid_utf8_split(b, start as int);
        lemma_boundary_iff_safe(b, end as int);
        lemma_boundary_iff_safe(r, (end - start) as int);
        if end < b.len() {
            assert(r[end - start] == b[end as int]);
        }
    }
    let (mid, _) = rest.split_at(end - start);
    assert(mid.spec_bytes() =~= b.subrange(start as int, end as int));
    mid
}

/// The text between two safe positions of `s`.
pub fn substring_safe(s: &str, start: usize, end: usize) -> (res: &str)
    requires
        start <= end,
        safe_pos(s.spec_bytes(), start as int),
        safe_pos(s.spec_bytes(), end as int),
    ensures
        res.spec_bytes() == s.spec_bytes().subrange(start as int, end as int),
{
    proof {
        lemma_str_valid(s);
        lemma_boundary_iff_safe(s.spec_bytes(), start as int);
        lemma_boundary_iff_safe(s.spec_bytes(), end as int);
    }
    substring(s, start, end)
}

} // verus!

verus! {

/// ASCII upper-casing of one byte; every other byte is unchanged.
pub open spec fn upper_byte(b: u8) -> u8 {
    if 97 <= b <= 122 {
        (b - 32) as u8
    } else {
        b
    }
}

/// The bytes, upper-cased when `fold` holds.
pub open spec fn fold_bytes(s: Seq<u8>, fold: bool) -> Seq<u8> {
    if fold {
        s.map_values(|b: u8| upper_byte(b))
    } else {
        s
    }
}

/// Whether `word`, upper-cased when `fold` holds, equals `name`.
pub fn bytes_eq_folded(word: &[u8], name: &[u8], fold: bool) -> (res: bool)
    ensures
        res == (fold_bytes(word@, fold) == name@),
{
    if word.len() != name.len() {
        proof {
            assert(fold_bytes(word@, fold).len() == word@.len());
        }
        return false;
    }
    let mut i: usize = 0;
    while i < word.len()
        invariant
            word@.len() == name@.len(),
            i <= word@.len(),
            forall|j: int| 0 <= j < i ==> #[trigger] fold_bytes(word@, fold)[j] == name@[j],
        decreases word.len() - i,
    {
        let b = word[i];
        let u = if fold && 97 <= b && b <= 122 {
            b - 32
        } else {
            b
        };
        assert(u == fold_bytes(word@, fold)[i as int]);
        if u != name[i] {
            return false;
        }
        i += 1;
    }
    assert(fold_bytes(word@, fold) =~= name@);
    true
}

/// Whether two strings hold the same chars.
pub fn str_eq(a: &str, b: &str) -> (res: bool)
    ensures
        res == (a@ == b@),
{
    let r = bytes_eq_folded(a.as_bytes(), b.as_bytes(), false);
    proof {
        encode_utf8_decode_utf8(a@);
        encode_utf8_decode_utf8(b@);
    }
    r
}

} // verus!
