//! Reading a decimal integer the way the standard library reads an `i64`: an
//! optional sign, then one or more ASCII digits, in range.
use vstd::prelude::*;
use vstd::string::*;

verus! {

pub open spec fn is_digit_byte(b: u8) -> bool {
    48 <= b <= 57
}

pub open spec fn all_digits(b: Seq<u8>) -> bool {
    forall|i: int| 0 <= i < b.len() ==> is_digit_byte(#[trigger] b[i])
}

/// The value of a run of decimal digits.
pub open spec fn digits_value(b: Seq<u8>) -> int
    decreases b.len(),
{
    if b.len() == 0 {
        0
    } else {
        digits_value(b.drop_last()) * 10 + (b.last() - 48)
    }
}

/// The integer that `b` spells, with its sign, where it spells one.
pub open spec fn signed_value(b: Seq<u8>) -> Option<int> {
    let signed = b.len() > 0 && (b[0] == 43u8 || b[0] == 45u8);
    let digits = if signed { b.drop_first() } else { b };
    if digits.len() > 0 && all_digits(digits) {
        if signed && b[0] == 45u8 {
            Some(-digits_value(digits))
        } else {
            Some(digits_value(digits))
        }
    } else {
        None
    }
}

/// What reading `b` as an `i64` gives: the value where `b` spells one that
/// fits, nothing otherwise.
pub open spec fn spec_parse_i64(b: Seq<u8>) -> Option<i64> {
    match signed_value(b) {
        Some(v) => if i64::MIN <= v <= i64::MAX {
            Some(v as i64)
        } else {
            None
        },
        None => None,
    }
}

proof fn lemma_digits_value_nonneg(b: Seq<u8>)
    requires
        all_digits(b),
    ensures
        digits_value(b) >= 0,
    decreases b.len(),
{
    if b.len() > 0 {
        assert(all_digits(b.drop_last()));
        lemma_digits_value_nonneg(b.drop_last());
        assert(is_digit_byte(b[b.len() - 1]));
    }
}

/// A longer run of digits is worth at least as much as its prefix.
proof fn lemma_digits_value_grows(b: Seq<u8>, i: int)
    requires
        all_digits(b),
        0 <= i <= b.len(),
    ensures
        digits_value(b.subrange(0, i)) <= digits_value(b),
    decreases b.len() - i,
{
    if i < b.len() {
        lemma_digits_value_grows(b, i + 1);
        let p = b.subrange(0, i + 1);
        assert(p.drop_last() =~= b.subrange(0, i));
        assert(all_digits(b.subrange(0, i)));
        lemma_digits_value_nonneg(b.subrange(0, i));
        assert(is_digit_byte(b[i]));
    } else {
        assert(b.subrange(0, i) =~= b);
    }
}

/// Read `s` as an `i64`: an optional `+` or `-`, then one or more ASCII
/// digits, whose value must fit.
pub fn parse_i64(s: &str) -> (res: Option<i64>)
    ensures
        res == spec_parse_i64(s.spec_bytes()),
{
    parse_i64_bytes(s.as_bytes())
}

/// [`parse_i64`] on the bytes of the text.
pub fn parse_i64_bytes(b: &[u8]) -> (res: Option<i64>)
    ensures
        res == spec_parse_i64(b@),
{
    let n = b.len();
    if n == 0 {
        return None;
    }
    let signed = b[0] == 43u8 || b[0] == 45u8;
    let neg = b[0] == 45u8;
    let start: usize = if signed { 1 } else { 0 };
    let ghost digits = if signed { b@.drop_first() } else { b@ };
    assert(digits =~= b@.subrange(start as int, n as int));
    if start >= n {
        return None;
    }
    let limit: u64 = if neg { 9223372036854775808 } else { 9223372036854775807 };
    let mut acc: u64 = 0;
    let mut i: usize = start;
    assert(b@.subrange(start as int, start as int) =~= Seq::<u8>::empty());
    while i < n
        invariant
            n == b@.len(),
            n > 0,
            signed == (b@[0] == 43u8 || b@[0] == 45u8),
            neg == (b@[0] == 45u8),
            start == (if signed { 1usize } else { 0usize }),
            limit == (if neg { 9223372036854775808u64 } else { 9223372036854775807u64 }),
            digits == (if signed { b@.drop_first() } else { b@ }),
            start <= i <= n,
            digits == b@.subrange(start as int, n as int),
            all_digits(b@.subrange(start as int, i as int)),
            acc == digits_value(b@.subrange(start as int, i as int)),
            acc <= limit,
        decreases n - i,
    {
        let c = b[i];
        let ghost pre = b@.subrange(start as int, i as int);
        let ghost next = b@.subrange(start as int, i + 1);
        assert(next.drop_last() =~= pre);
        assert(next.last() == c);
        if c < 48u8 || c > 57u8 {
            assert(digits[i - start] == c);
            assert(!all_digits(digits));
            return None;
        }
        let d: u64 = (c - 48u8) as u64;
        if acc > (limit - d) / 10 {
            assert(acc * 10 + d > limit) by (nonlinear_arith)
                requires
                    acc > (limit - d) / 10,
                    d <= 9,
                    d <= limit,
            ;
            assert(all_digits(next));
            assert(digits_value(next) > limit);
            proof {
                if all_digits(digits) {
                    assert(digits.subrange(0, i + 1 - start) =~= next);
                    lemma_digits_value_grows(digits, i + 1 - start);
                }
            }
            return None;
        }
        assert(acc * 10 + d <= limit) by (nonlinear_arith)
            requires
                acc <= (limit - d) / 10,
                d <= limit,
        ;
        acc = acc * 10 + d;
        i += 1;
        assert(all_digits(next));
    }
    assert(b@.subrange(start as int, n as int) =~= digits);
    if neg {
        if acc == 9223372036854775808u64 {
            Some(i64::MIN)
        } else {
            let v = acc as i64;
            Some(-v)
        }
    } else {
        Some(acc as i64)
    }
}

/// What reading `b` as an unsigned integer at most `max` gives: an optional
/// `+`, then one or more ASCII digits, whose value is at most `max`.
pub open spec fn spec_parse_unsigned(b: Seq<u8>, max: u64) -> Option<u64> {
    let signed = b.len() > 0 && b[0] == 43u8;
    let digits = if signed { b.drop_first() } else { b };
    if digits.len() > 0 && all_digits(digits) && digits_value(digits) <= max {
        Some(digits_value(digits) as u64)
    } else {
        None
    }
}

/// Read the bytes as an unsigned integer at most `max` (an optional `+`, then
/// one or more ASCII digits).
pub fn parse_unsigned_bytes(b: &[u8], max: u64) -> (res: Option<u64>)
    ensures
        res == spec_parse_unsigned(b@, max),
{
    let n = b.len();
    if n == 0 {
        return None;
    }
    let signed = b[0] == 43u8;
    let start: usize = if signed { 1 } else { 0 };
    let ghost digits = if signed { b@.drop_first() } else { b@ };
    assert(digits =~= b@.subrange(start as int, n as int));
    if start >= n {
        return None;
    }
    let mut acc: u64 = 0;
    let mut i: usize = start;
    assert(b@.subrange(start as int, start as int) =~= Seq::<u8>::empty());
    while i < n
        invariant
            n == b@.len(),
            n > 0,
            signed == (b@[0] == 43u8),
            start == (if signed { 1usize } else { 0usize }),
            digits == (if signed { b@.drop_first() } else { b@ }),
            start <= i <= n,
            digits == b@.subrange(start as int, n as int),
            all_digits(b@.subrange(start as int, i as int)),
            acc == digits_value(b@.subrange(start as int, i as int)),
            acc <= max,
        decreases n - i,
    {
        let c = b[i];
        let ghost pre = b@.subrange(start as int, i as int);
        let ghost next = b@.subrange(start as int, i + 1);
        assert(next.drop_last() =~= pre);
        assert(next.last() == c);
        if c < 48u8 || c > 57u8 {
            assert(digits[i - start] == c);
            assert(!all_digits(digits));
            return None;
        }
        let d: u64 = (c - 48u8) as u64;
        if d > max || acc > (max - d) / 10 {
            assert(acc * 10 + d > max) by (nonlinear_arith)
                requires
                    d > max || acc > (max - d) / 10,
                    d <= 9,
            ;
            assert(all_digits(next));
            proof {
                lemma_digits_value_nonneg(pre);
                if all_digits(digits) {
                    assert(digits.subrange(0, i + 1 - start) =~= next);
                    lemma_digits_value_grows(digits, i + 1 - start);
                }
            }
            return None;
        }
        assert(acc * 10 + d <= max) by (nonlinear_arith)
            requires
                acc <= (max - d) / 10,
                d <= max,
        ;
        acc = acc * 10 + d;
        i += 1;
        assert(all_digits(next));
    }
    assert(b@.subrange(start as int, n as int) =~= digits);
    Some(acc)
}

} // verus!
