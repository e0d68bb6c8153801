//! Byte classes and the scanners that find where each kind of token ends.
use vstd::prelude::*;

use crate::text::safe_pos;

verus! {

pub open spec fn is_ws(c: u8) -> bool {
    c == 32 || (9 <= c <= 13)
}

pub open spec fn is_digit(c: u8) -> bool {
    48 <= c <= 57
}

/// A byte that may start an identifier: an ASCII letter, `_`, `$`, or any
/// byte of a non-ASCII character.
pub open spec fn is_ident_start(c: u8) -> bool {
    (65 <= c <= 90) || (97 <= c <= 122) || c == 95 || c == 36 || c >= 128
}

pub open spec fn is_ident_cont(c: u8) -> bool {
    is_ident_start(c) || is_digit(c)
}

/// End of the run of identifier bytes that starts at `i`.
pub open spec fn ident_end(b: Seq<u8>, i: int) -> int
    decreases b.len() - i,
{
    if 0 <= i < b.len() && is_ident_cont(b[i]) {
        ident_end(b, i + 1)
    } else {
        i
    }
}

/// End of the run of digits that starts at `i`.
pub open spec fn digits_end(b: Seq<u8>, i: int) -> int
    decreases b.len() - i,
{
    if 0 <= i < b.len() && is_digit(b[i]) {
        digits_end(b, i + 1)
    } else {
        i
    }
}

/// The first newline at or after `i`, or the end of the text.
pub open spec fn line_end(b: Seq<u8>, i: int) -> int
    decreases b.len() - i,
{
    if 0 <= i < b.len() && b[i] != 10 {
        line_end(b, i + 1)
    } else {
        i
    }
}

/// The position after the closing `close` byte of a quoted run whose body
/// starts at `i`; a doubled closing byte stands for itself. An unterminated
/// run ends with the text.
pub open spec fn quoted_end(b: Seq<u8>, i: int, close: u8) -> int
    decreases b.len() - i,
{
    if i < 0 || i >= b.len() {
        b.len() as int
    } else if b[i] == close {
        if i + 1 < b.len() && b[i + 1] == close {
            quoted_end(b, i + 2, close)
        } else {
            i + 1
        }
    } else {
        quoted_end(b, i + 1, close)
    }
}

/// The position after the `*/` that closes a block comment nested `depth`
/// deep, whose body continues at `i`; an unterminated comment ends with the
/// text.
pub open spec fn block_end(b: Seq<u8>, i: int, depth: nat) -> int
    decreases b.len() - i,
{
    if i < 0 || i >= b.len() {
        b.len() as int
    } else if b[i] == 47 && i + 1 < b.len() && b[i + 1] == 42 {
        block_end(b, i + 2, depth + 1)
    } else if b[i] == 42 && i + 1 < b.len() && b[i + 1] == 47 {
        if depth <= 1 {
            i + 2
        } else {
            block_end(b, i + 2, (depth - 1) as nat)
        }
    } else {
        block_end(b, i + 1, depth)
    }
}

/// The end of an exponent `e10`, `E+3`, `e-2` that starts at `k`, if one does.
pub open spec fn exponent_end(b: Seq<u8>, k: int) -> Option<int> {
    if 0 <= k < b.len() && (b[k] == 101 || b[k] == 69) {
        if k + 1 < b.len() && is_digit(b[k + 1]) {
            Some(digits_end(b, k + 1))
        } else if k + 2 < b.len() && (b[k + 1] == 43 || b[k + 1] == 45) && is_digit(b[k + 2]) {
            Some(digits_end(b, k + 2))
        } else {
            None
        }
    } else {
        None
    }
}

/// The end of a numeric literal that starts at `i`, and whether it has a
/// fractional part or an exponent.
pub open spec fn number_end(b: Seq<u8>, i: int) -> (int, bool) {
    let int_end = digits_end(b, i);
    let (frac_end, has_dot) = if 0 <= int_end < b.len() && b[int_end] == 46 {
        (digits_end(b, int_end + 1), true)
    } else {
        (int_end, false)
    };
    match exponent_end(b, frac_end) {
        Some(e) => (e, true),
        None => (frac_end, has_dot),
    }
}

pub proof fn lemma_ident_end(b: Seq<u8>, i: int)
    requires
        0 <= i <= b.len(),
    ensures
        i <= ident_end(b, i) <= b.len(),
        ident_end(b, i) == b.len() || !is_ident_cont(b[ident_end(b, i)]),
        forall|j: int| i <= j < ident_end(b, i) ==> is_ident_cont(#[trigger] b[j]),
    decreases b.len() - i,
{
    if i < b.len() && is_ident_cont(b[i]) {
        lemma_ident_end(b, i + 1);
    }
}

pub proof fn lemma_digits_end(b: Seq<u8>, i: int)
    requires
        0 <= i <= b.len(),
    ensures
        i <= digits_end(b, i) <= b.len(),
        forall|j: int| i <= j < digits_end(b, i) ==> is_digit(#[trigger] b[j]),
    decreases b.len() - i,
{
    if i < b.len() && is_digit(b[i]) {
        lemma_digits_end(b, i + 1);
    }
}

pub proof fn lemma_line_end(b: Seq<u8>, i: int)
    requires
        0 <= i <= b.len(),
    ensures
        i <= line_end(b, i) <= b.len(),
        line_end(b, i) == b.len() || b[line_end(b, i)] == 10,
    decreases b.len() - i,
{
    if i < b.len() && b[i] != 10 {
        lemma_line_end(b, i + 1);
    }
}

pub proof fn lemma_quoted_end(b: Seq<u8>, i: int, close: u8)
    requires
        0 <= i <= b.len(),
    ensures
        i <= quoted_end(b, i, close) <= b.len(),
        quoted_end(b, i, close) == b.len() || (quoted_end(b, i, close) > i && b[quoted_end(
            b,
            i,
            close,
        ) - 1] == close),
    decreases b.len() - i,
{
    if i < b.len() {
        if b[i] == close {
            if i + 1 < b.len() && b[i + 1] == close {
                lemma_quoted_end(b, i + 2, close);
            }
        } else {
            lemma_quoted_end(b, i + 1, close);
        }
    }
}

pub proof fn lemma_block_end(b: Seq<u8>, i: int, depth: nat)
    requires
        0 <= i <= b.len(),
    ensures
        i <= block_end(b, i, depth) <= b.len(),
        block_end(b, i, depth) == b.len() || (block_end(b, i, depth) > i && b[block_end(
            b,
            i,
            depth,
        ) - 1] == 47),
    decreases b.len() - i,
{
    if i < b.len() {
        if b[i] == 47 && i + 1 < b.len() && b[i + 1] == 42 {
            lemma_block_end(b, i + 2, depth + 1);
        } else if b[i] == 42 && i + 1 < b.len() && b[i + 1] == 47 {
            if depth > 1 {
                lemma_block_end(b, i + 2, (depth - 1) as nat);
            }
        } else {
            lemma_block_end(b, i + 1, depth);
        }
    }
}

/// A numeric literal that starts with a digit, or with `.` and a digit,
/// ends after an ASCII byte within the text.
pub proof fn lemma_number_end(b: Seq<u8>, i: int)
    requires
        0 <= i < b.len(),
        is_digit(b[i]) || (b[i] == 46 && i + 1 < b.len() && is_digit(b[i + 1])),
    ensures
        i < number_end(b, i).0 <= b.len(),
        b[number_end(b, i).0 - 1] < 128,
{
    lemma_digits_end(b, i);
    let int_end = digits_end(b, i);
    if is_digit(b[i]) {
        assert(digits_end(b, i) == digits_end(b, i + 1));
        lemma_digits_end(b, i + 1);
        assert(int_end > i);
        assert(is_digit(b[int_end - 1]));
    } else {
        assert(int_end == i);
    }
    let frac_end = if 0 <= int_end < b.len() && b[int_end] == 46 {
        digits_end(b, int_end + 1)
    } else {
        int_end
    };
    if 0 <= int_end < b.len() && b[int_end] == 46 {
        lemma_digits_end(b, int_end + 1);
        if frac_end > int_end + 1 {
            assert(is_digit(b[frac_end - 1]));
        } else {
            assert(b[frac_end - 1] == 46);
        }
    }
    assert(frac_end > i);
    assert(b[frac_end - 1] < 128);
    if 0 <= frac_end < b.len() && (b[frac_end] == 101 || b[frac_end] == 69) {
        if frac_end + 1 < b.len() && is_digit(b[frac_end + 1]) {
            assert(digits_end(b, frac_end + 1) == digits_end(b, frac_end + 2));
            lemma_digits_end(b, frac_end + 2);
            assert(is_digit(b[digits_end(b, frac_end + 1) - 1]));
        } else if frac_end + 2 < b.len() && (b[frac_end + 1] == 43 || b[frac_end + 1] == 45)
            && is_digit(b[frac_end + 2]) {
            assert(digits_end(b, frac_end + 2) == digits_end(b, frac_end + 3));
            lemma_digits_end(b, frac_end + 3);
            assert(is_digit(b[digits_end(b, frac_end + 2) - 1]));
        }
    }
}

// ---------------- executable scanners ----------------

pub fn exec_is_ws(c: u8) -> (res: bool)
    ensures
        res == is_ws(c),
{
    c == 32 || (9 <= c && c <= 13)
}

pub fn exec_is_digit(c: u8) -> (res: bool)
    ensures
        res == is_digit(c),
{
    48 <= c && c <= 57
}

pub fn exec_is_ident_start(c: u8) -> (res: bool)
    ensures
        res == is_ident_start(c),
{
    (65 <= c && c <= 90) || (97 <= c && c <= 122) || c == 95 || c == 36 || c >= 128
}

pub fn exec_is_ident_cont(c: u8) -> (res: bool)
    ensures
        res == is_ident_cont(c),
{
    exec_is_ident_start(c) || exec_is_digit(c)
}

pub fn scan_ident(b: &[u8], i: usize) -> (res: usize)
    requires
        i <= b@.len(),
    ensures
        res == ident_end(b@, i as int),
{
    let mut j = i;
    while j < b.len() && exec_is_ident_cont(b[j])
        invariant
            i <= j <= b@.len(),
            ident_end(b@, i as int) == ident_end(b@, j as int),
        decreases b.len() - j,
    {
        j += 1;
    }
    j
}

pub fn scan_digits(b: &[u8], i: usize) -> (res: usize)
    requires
        i <= b@.len(),
    ensures
        res == digits_end(b@, i as int),
{
    let mut j = i;
    while j < b.len() && exec_is_digit(b[j])
        invariant
            i <= j <= b@.len(),
            digits_end(b@, i as int) == digits_end(b@, j as int),
        decreases b.len() - j,
    {
        j += 1;
    }
    j
}

pub fn scan_line(b: &[u8], i: usize) -> (res: usize)
    requires
        i <= b@.len(),
    ensures
        res == line_end(b@, i as int),
{
    let mut j = i;
    while j < b.len() && b[j] != 10
        invariant
            i <= j <= b@.len(),
            line_end(b@, i as int) == line_end(b@, j as int),
        decreases b.len() - j,
    {
        j += 1;
    }
    j
}

pub fn scan_quoted(b: &[u8], i: usize, close: u8) -> (res: usize)
    requires
        i <= b@.len(),
    ensures
        res == quoted_end(b@, i as int, close),
{
    let mut j = i;
    while j < b.len()
        invariant
            i <= j <= b@.len(),
            quoted_end(b@, i as int, close) == quoted_end(b@, j as int, close),
        decreases b.len() - j,
    {
        if b[j] == close {
            if j + 1 < b.len() && b[j + 1] == close {
                j += 2;
            } else {
                return j + 1;
            }
        } else {
            j += 1;
        }
    }
    j
}

pub fn scan_block(b: &[u8], i: usize) -> (res: usize)
    requires
        i <= b@.len(),
    ensures
        res == block_end(b@, i as int, 1),
{
    let mut j = i;
    let mut depth: usize = 1;
    while j < b.len()
        invariant
            i <= j <= b@.len(),
            1 <= depth <= j + 1,
            block_end(b@, i as int, 1) == block_end(b@, j as int, depth as nat),
        decreases b.len() - j,
    {
        if b[j] == 47 && j + 1 < b.len() && b[j + 1] == 42 {
            depth += 1;
            j += 2;
        } else if b[j] == 42 && j + 1 < b.len() && b[j + 1] == 47 {
            if depth <= 1 {
                return j + 2;
            }
            depth -= 1;
            j += 2;
        } else {
            j += 1;
        }
    }
    j
}

pub fn scan_number(b: &[u8], i: usize) -> (res: (usize, bool))
    requires
        i <= b@.len(),
    ensures
        res.0 == number_end(b@, i as int).0,
        res.1 == number_end(b@, i as int).1,
{
    let int_end = scan_digits(b, i);
    proof {
        lemma_digits_end(b@, i as int);
    }
    let (frac_end, has_dot) = if int_end < b.len() && b[int_end] == 46 {
        proof {
            lemma_digits_end(b@, int_end + 1);
        }
        (scan_digits(b, int_end + 1), true)
    } else {
        (int_end, false)
    };
    if frac_end < b.len() && (b[frac_end] == 101 || b[frac_end] == 69) {
        if frac_end + 1 < b.len() && exec_is_digit(b[frac_end + 1]) {
            return (scan_digits(b, frac_end + 1), true);
        } else if b.len() - frac_end > 2 && (b[frac_end + 1] == 43 || b[frac_end + 1] == 45)
            && exec_is_digit(b[frac_end + 2]) {
            return (scan_digits(b, frac_end + 2), true);
        }
    }
    (frac_end, has_dot)
}

} // verus!
