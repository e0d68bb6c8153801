//! The dialect-driven lexer: a byte-level tokenizer whose every step is
//! specified by [`next_step`] and whose whole output is [`lex_from`].
use vstd::prelude::*;
use vstd::string::*;
use vstd::utf8::*;

use crate::dialect::{CommentStyle, DialectSpec, DialectView};
use crate::lex::scan::{
    block_end, digits_end, exec_is_digit, exec_is_ident_start, exec_is_ws, ident_end, is_digit,
    is_ident_start, is_ws, lemma_block_end, lemma_ident_end, lemma_line_end, lemma_number_end,
    lemma_quoted_end, line_end, number_end, quoted_end, scan_block, scan_ident, scan_line,
    scan_number, scan_quoted,
};
use crate::lex::{Operator, QuoteStyle, Token, TokenKind};
use crate::span::Span;
use crate::text::{lemma_safe_after_ascii, lemma_str_valid, safe_pos, substring_safe};

verus! {

pub open spec fn all_ascii(s: Seq<u8>) -> bool {
    forall|j: int| 0 <= j < s.len() ==> #[trigger] s[j] < 128
}

/// The kind of a one-byte punctuation token.
pub open spec fn punct_kind(c: u8) -> TokenKind {
    if c == 40 {
        TokenKind::LeftParen
    } else if c == 41 {
        TokenKind::RightParen
    } else if c == 91 {
        TokenKind::LeftBracket
    } else if c == 93 {
        TokenKind::RightBracket
    } else if c == 44 {
        TokenKind::Comma
    } else if c == 59 {
        TokenKind::Semicolon
    } else if c == 46 {
        TokenKind::Dot
    } else if c == 58 {
        TokenKind::Colon
    } else {
        TokenKind::Unknown
    }
}

/// A word is a keyword, else a word operator, else an identifier.
pub open spec fn word_kind(d: DialectView, w: Seq<u8>) -> TokenKind {
    match d.spec_match_keyword(w) {
        Some(k) => TokenKind::Keyword(k),
        None => match d.spec_match_operator(w) {
            Some(op) => TokenKind::Operator(op),
            None => TokenKind::Identifier,
        },
    }
}

/// The longest operator of at most `n` ASCII bytes that starts at `i`, with
/// its length.
pub open spec fn longest_op(d: DialectView, b: Seq<u8>, i: int, n: int) -> Option<(int, Operator)>
    decreases n,
{
    if n <= 0 {
        None
    } else if i + n <= b.len() && all_ascii(b.subrange(i, i + n)) && d.spec_match_operator(
        b.subrange(i, i + n),
    ) is Some {
        Some((n, d.spec_match_operator(b.subrange(i, i + n)).unwrap()))
    } else {
        longest_op(d, b, i, n - 1)
    }
}

/// How many bytes an operator at `i` may span.
pub open spec fn op_budget(d: DialectView, b: Seq<u8>, i: int) -> int {
    if d.spec_max_op_len() < b.len() - i {
        d.spec_max_op_len() as int
    } else {
        b.len() - i
    }
}

pub open spec fn supports_comment(d: DialectView, c: CommentStyle) -> bool {
    d.comments.contains(c)
}

pub open spec fn supports_quote(d: DialectView, q: QuoteStyle) -> bool {
    d.quotes.contains(q)
}

/// One step of the lexer at byte `i`: whether the bytes are skipped
/// (whitespace, comments), the kind of the token otherwise, and where the step
/// ends.
pub open spec fn next_step(d: DialectView, b: Seq<u8>, i: int) -> (bool, TokenKind, int) {
    let c = b[i];
    let n1: u8 = if i + 1 < b.len() { b[i + 1] } else { 0 };
    if is_ws(c) {
        (true, TokenKind::Unknown, i + 1)
    } else if c == 45 && n1 == 45 && supports_comment(d, CommentStyle::DoubleDash) {
        (true, TokenKind::Unknown, line_end(b, i + 2))
    } else if c == 35 && supports_comment(d, CommentStyle::Hash) {
        (true, TokenKind::Unknown, line_end(b, i + 1))
    } else if c == 47 && n1 == 42 && supports_comment(d, CommentStyle::SlashStar) {
        (true, TokenKind::Unknown, block_end(b, i + 2, 1))
    } else if is_digit(c) || (c == 46 && i + 1 < b.len() && is_digit(n1)) {
        let (e, is_float) = number_end(b, i);
        (false, if is_float { TokenKind::Float } else { TokenKind::Number }, e)
    } else if c == 39 {
        (false, TokenKind::Str, quoted_end(b, i + 1, 39))
    } else if c == 34 && supports_quote(d, QuoteStyle::Double) {
        (false, TokenKind::IdentifierQuoted(QuoteStyle::Double), quoted_end(b, i + 1, 34))
    } else if c == 96 && supports_quote(d, QuoteStyle::Backtick) {
        (false, TokenKind::IdentifierQuoted(QuoteStyle::Backtick), quoted_end(b, i + 1, 96))
    } else if c == 91 && supports_quote(d, QuoteStyle::Bracket) {
        (false, TokenKind::IdentifierQuoted(QuoteStyle::Bracket), quoted_end(b, i + 1, 93))
    } else if is_ident_start(c) {
        let e = ident_end(b, i + 1);
        (false, word_kind(d, b.subrange(i, e)), e)
    } else {
        match longest_op(d, b, i, op_budget(d, b, i)) {
            Some((n, op)) => (false, TokenKind::Operator(op), i + n),
            None => (false, punct_kind(c), i + 1),
        }
    }
}

pub proof fn lemma_longest_op(d: DialectView, b: Seq<u8>, i: int, n: int)
    requires
        0 <= i < b.len(),
    ensures
        longest_op(d, b, i, n) matches Some((m, _)) ==> 0 < m <= n && i + m <= b.len()
            && all_ascii(b.subrange(i, i + m)),
    decreases n,
{
    if n > 0 {
        lemma_longest_op(d, b, i, n - 1);
    }
}

/// Every step moves forward and stays within the text.
pub proof fn lemma_step_bounds(d: DialectView, b: Seq<u8>, i: int)
    requires
        0 <= i < b.len(),
    ensures
        i < next_step(d, b, i).2 <= b.len(),
{
    let c = b[i];
    lemma_line_end(b, i + 1);
    if i + 2 <= b.len() {
        lemma_line_end(b, i + 2);
        lemma_block_end(b, i + 2, 1);
    }
    lemma_quoted_end(b, i + 1, 39);
    lemma_quoted_end(b, i + 1, 34);
    lemma_quoted_end(b, i + 1, 96);
    lemma_quoted_end(b, i + 1, 93);
    lemma_ident_end(b, i + 1);
    if is_digit(c) || (c == 46 && i + 1 < b.len() && is_digit(b[i + 1])) {
        lemma_number_end(b, i);
    }
    lemma_longest_op(d, b, i, op_budget(d, b, i));
}

/// Every step that starts at a safe position of valid UTF-8 ends at one.
pub proof fn lemma_step_safe(d: DialectView, b: Seq<u8>, i: int)
    requires
        valid_utf8(b),
        0 <= i < b.len(),
        safe_pos(b, i),
    ensures
        safe_pos(b, next_step(d, b, i).2),
{
    lemma_step_bounds(d, b, i);
    let c = b[i];
    let n1: u8 = if i + 1 < b.len() { b[i + 1] } else { 0 };
    let e = next_step(d, b, i).2;
    if is_ws(c) {
        lemma_safe_after_ascii(b, i);
    } else if c == 45 && n1 == 45 && supports_comment(d, CommentStyle::DoubleDash) {
        lemma_line_end(b, i + 2);
    } else if c == 35 && supports_comment(d, CommentStyle::Hash) {
        lemma_line_end(b, i + 1);
    } else if c == 47 && n1 == 42 && supports_comment(d, CommentStyle::SlashStar) {
        lemma_block_end(b, i + 2, 1);
        if e < b.len() {
            lemma_safe_after_ascii(b, e - 1);
        }
    } else if is_digit(c) || (c == 46 && i + 1 < b.len() && is_digit(n1)) {
        lemma_number_end(b, i);
        lemma_safe_after_ascii(b, e - 1);
    } else if c == 39 || (c == 34 && supports_quote(d, QuoteStyle::Double)) || (c == 96
        && supports_quote(d, QuoteStyle::Backtick)) || (c == 91 && supports_quote(
        d,
        QuoteStyle::Bracket,
    )) {
        lemma_quoted_end(b, i + 1, 39);
        lemma_quoted_end(b, i + 1, 34);
        lemma_quoted_end(b, i + 1, 96);
        lemma_quoted_end(b, i + 1, 93);
        if e < b.len() {
            lemma_safe_after_ascii(b, e - 1);
        }
    } else if is_ident_start(c) {
        lemma_ident_end(b, i + 1);
    } else {
        assert(c < 128);
        lemma_longest_op(d, b, i, op_budget(d, b, i));
        match longest_op(d, b, i, op_budget(d, b, i)) {
            Some((n, op)) => {
                assert(b.subrange(i, i + n)[n - 1] == b[i + n - 1]);
                lemma_safe_after_ascii(b, i + n - 1);
            },
            None => {
                lemma_safe_after_ascii(b, i);
            },
        }
    }
}

/// The tokens of the text from byte `i` on, as (kind, start, end) triples,
/// ending with the end-of-input token.
pub open spec fn lex_from(d: DialectView, b: Seq<u8>, i: int) -> Seq<(TokenKind, int, int)>
    decreases b.len() - i,
    via lex_from_decreases
{
    if i < 0 || i >= b.len() {
        seq![(TokenKind::Eof, b.len() as int, b.len() as int)]
    } else {
        let s = next_step(d, b, i);
        if s.0 {
            lex_from(d, b, s.2)
        } else {
            seq![(s.1, i, s.2)] + lex_from(d, b, s.2)
        }
    }
}

#[via_fn]
proof fn lex_from_decreases(d: DialectView, b: Seq<u8>, i: int) {
    if 0 <= i < b.len() {
        lemma_step_bounds(d, b, i);
    }
}

/// The facts that every token sequence of the lexer keeps.
pub open spec fn tokens_well_formed(b: Seq<u8>, ts: Seq<(TokenKind, int, int)>, from: int) -> bool {
    &&& ts.len() >= 1
    &&& ts.last() == (TokenKind::Eof, b.len() as int, b.len() as int)
    &&& forall|k: int|
        0 <= k < ts.len() ==> from <= (#[trigger] ts[k]).1 <= ts[k].2 <= b.len() && safe_pos(
            b,
            ts[k].1,
        ) && safe_pos(b, ts[k].2)
    &&& forall|k: int|
        0 <= k < ts.len() - 1 ==> (#[trigger] ts[k]).1 < ts[k].2 && ts[k].0 != TokenKind::Eof
    &&& forall|k1: int, k2: int|
        0 <= k1 < k2 < ts.len() ==> (#[trigger] ts[k1]).2 <= (#[trigger] ts[k2]).1
}

pub proof fn lemma_lex_from_wf(d: DialectView, b: Seq<u8>, i: int)
    requires
        valid_utf8(b),
        0 <= i <= b.len(),
        safe_pos(b, i),
    ensures
        tokens_well_formed(b, lex_from(d, b, i), i),
    decreases b.len() - i,
{
    if i < b.len() {
        lemma_step_bounds(d, b, i);
        lemma_step_safe(d, b, i);
        let s = next_step(d, b, i);
        lemma_lex_from_wf(d, b, s.2);
        let rest = lex_from(d, b, s.2);
        if !s.0 {
            let ts = seq![(s.1, i, s.2)] + rest;
            assert(s.1 != TokenKind::Eof);
            assert forall|k: int| 0 <= k < ts.len() implies i <= (#[trigger] ts[k]).1 <= ts[k].2
                <= b.len() && safe_pos(b, ts[k].1) && safe_pos(b, ts[k].2) by {
                if k > 0 {
                    assert(ts[k] == rest[k - 1]);
                }
            }
            assert forall|k: int| 0 <= k < ts.len() - 1 implies (#[trigger] ts[k]).1 < ts[k].2
                && ts[k].0 != TokenKind::Eof by {
                if k > 0 {
                    assert(ts[k] == rest[k - 1]);
                }
            }
            assert forall|k1: int, k2: int| 0 <= k1 < k2 < ts.len() implies (
            #[trigger] ts[k1]).2 <= (#[trigger] ts[k2]).1 by {
                assert(ts[k2] == rest[k2 - 1]);
                if k1 > 0 {
                    assert(ts[k1] == rest[k1 - 1]);
                }
            }
        }
    }
}

// ---------------- executable lexer ----------------

fn exec_punct_kind(c: u8) -> (res: TokenKind)
    ensures
        res == punct_kind(c),
{
    if c == 40 {
        TokenKind::LeftParen
    } else if c == 41 {
        TokenKind::RightParen
    } else if c == 91 {
        TokenKind::LeftBracket
    } else if c == 93 {
        TokenKind::RightBracket
    } else if c == 44 {
        TokenKind::Comma
    } else if c == 59 {
        TokenKind::Semicolon
    } else if c == 46 {
        TokenKind::Dot
    } else if c == 58 {
        TokenKind::Colon
    } else {
        TokenKind::Unknown
    }
}

fn exec_all_ascii(s: &[u8]) -> (res: bool)
    ensures
        res == all_ascii(s@),
{
    let mut j: usize = 0;
    while j < s.len()
        invariant
            j <= s@.len(),
            forall|k: int| 0 <= k < j ==> #[trigger] s@[k] < 128,
        decreases s.len() - j,
    {
        if s[j] >= 128 {
            return false;
        }
        j += 1;
    }
    true
}

fn exec_longest_op(d: &DialectSpec, b: &[u8], i: usize) -> (res: Option<(usize, Operator)>)
    requires
        i < b@.len(),
    ensures
        match longest_op(d@, b@, i as int, op_budget(d@, b@, i as int)) {
            Some((n, op)) => res is Some && res.unwrap().0 == n && res.unwrap().1 == op,
            None => res is None,
        },
{
    let max = d.max_op_len();
    let mut n = if max < b.len() - i {
        max
    } else {
        b.len() - i
    };
    while n > 0
        invariant
            i < b@.len(),
            i + n <= b.len(),
            longest_op(d@, b@, i as int, op_budget(d@, b@, i as int)) == longest_op(
                d@,
                b@,
                i as int,
                n as int,
            ),
        decreases n,
    {
        let w = &b[i..i + n];
        assert(w@ == b@.subrange(i as int, i + n));
        if exec_all_ascii(w) {
            match d.match_operator_bytes(w) {
                Some(op) => {
                    return Some((n, op));
                },
                None => {},
            }
        }
        n -= 1;
    }
    None
}

/// One step of the lexer.
fn step(d: &DialectSpec, b: &[u8], i: usize) -> (res: (bool, TokenKind, usize))
    requires
        i < b@.len(),
    ensures
        (res.0, res.1, res.2 as int) == next_step(d@, b@, i as int),
{
    proof {
        lemma_step_bounds(d@, b@, i as int);
    }
    let c = b[i];
    let n1: u8 = if i + 1 < b.len() {
        b[i + 1]
    } else {
        0
    };
    if exec_is_ws(c) {
        (true, TokenKind::Unknown, i + 1)
    } else if c == 45 && n1 == 45 && d.supports_comment_style(CommentStyle::DoubleDash) {
        (true, TokenKind::Unknown, scan_line(b, i + 2))
    } else if c == 35 && d.supports_comment_style(CommentStyle::Hash) {
        (true, TokenKind::Unknown, scan_line(b, i + 1))
    } else if c == 47 && n1 == 42 && d.supports_comment_style(CommentStyle::SlashStar) {
        (true, TokenKind::Unknown, scan_block(b, i + 2))
    } else if exec_is_digit(c) || (c == 46 && i + 1 < b.len() && exec_is_digit(n1)) {
        let (e, is_float) = scan_number(b, i);
        (
            false,
            if is_float {
                TokenKind::Float
            } else {
                TokenKind::Number
            },
            e,
        )
    } else if c == 39 {
        (false, TokenKind::Str, scan_quoted(b, i + 1, 39))
    } else if c == 34 && d.supports_quote_style(QuoteStyle::Double) {
        (false, TokenKind::IdentifierQuoted(QuoteStyle::Double), scan_quoted(b, i + 1, 34))
    } else if c == 96 && d.supports_quote_style(QuoteStyle::Backtick) {
        (false, TokenKind::IdentifierQuoted(QuoteStyle::Backtick), scan_quoted(b, i + 1, 96))
    } else if c == 91 && d.supports_quote_style(QuoteStyle::Bracket) {
        (false, TokenKind::IdentifierQuoted(QuoteStyle::Bracket), scan_quoted(b, i + 1, 93))
    } else if exec_is_ident_start(c) {
        let e = scan_ident(b, i + 1);
        proof {
            lemma_ident_end(b@, i + 1);
        }
        let w = &b[i..e];
        assert(w@ == b@.subrange(i as int, e as int));
        let kind = match d.match_keyword_bytes(w) {
            Some(k) => TokenKind::Keyword(k),
            None => match d.match_operator_bytes(w) {
                Some(op) => TokenKind::Operator(op),
                None => TokenKind::Identifier,
            },
        };
        (false, kind, e)
    } else {
        match exec_longest_op(d, b, i) {
            Some((n, op)) => (false, TokenKind::Operator(op), i + n),
            None => (false, exec_punct_kind(c), i + 1),
        }
    }
}

/// The (kind, start, end) triple of a token.
pub open spec fn triple(t: Token) -> (TokenKind, int, int) {
    (t.kind, t.span.start as int, t.span.end as int)
}

pub open spec fn triples(ts: Seq<Token>) -> Seq<(TokenKind, int, int)> {
    ts.map_values(|t: Token| triple(t))
}

/// Split `input` into tokens. The result is exactly [`lex_from`] of the
/// input's bytes: its spans are ordered, do not overlap, fall on character
/// boundaries, and the last token is the end-of-input token at the end of the
/// text. Each token's text is the input between its span's ends.
pub fn lex(spec: &DialectSpec, input: &str) -> (res: Vec<Token>)
    ensures
        triples(res@) == lex_from(spec@, input.spec_bytes(), 0),
        tokens_well_formed(input.spec_bytes(), triples(res@), 0),
        forall|k: int|
            0 <= k < res@.len() ==> encode_utf8((#[trigger] res@[k]).text@)
                == input.spec_bytes().subrange(res@[k].span.start as int, res@[k].span.end as int),
{
    let b = input.as_bytes();
    let ghost bs = input.spec_bytes();
    proof {
        lemma_str_valid(input);
        lemma_lex_from_wf(spec@, bs, 0);
    }
    let mut tokens: Vec<Token> = Vec::new();
    let mut pos: usize = 0;
    while pos < b.len()
        invariant
            b@ == bs,
            bs == input.spec_bytes(),
            valid_utf8(bs),
            pos <= bs.len(),
            safe_pos(bs, pos as int),
            triples(tokens@) + lex_from(spec@, bs, pos as int) == lex_from(spec@, bs, 0),
            forall|k: int|
                0 <= k < tokens@.len() ==> encode_utf8((#[trigger] tokens@[k]).text@)
                    == bs.subrange(tokens@[k].span.start as int, tokens@[k].span.end as int),
        decreases b.len() - pos,
    {
        let (skip, kind, end) = step(spec, b, pos);
        proof {
            lemma_step_bounds(spec@, bs, pos as int);
            lemma_step_safe(spec@, bs, pos as int);
        }
        if !skip {
            let sub = substring_safe(input, pos, end);
            let text = sub.to_owned();
            let tok = Token { kind, span: Span::new(pos, end), text };
            let ghost old_tokens = tokens@;
            tokens.push(tok);
            proof {
                assert(triples(tokens@) =~= triples(old_tokens) + seq![triple(tok)]);
                assert(lex_from(spec@, bs, pos as int) == seq![(kind, pos as int, end as int)]
                    + lex_from(spec@, bs, end as int));
                assert(triples(tokens@) + lex_from(spec@, bs, end as int) =~= triples(old_tokens)
                    + lex_from(spec@, bs, pos as int));
                assert(encode_utf8(tok.text@) == sub.spec_bytes());
            }
        }
        pos = end;
    }
    let ghost old_tokens = tokens@;
    let eof = Token { kind: TokenKind::Eof, span: Span::new(b.len(), b.len()), text: String::new() };
    tokens.push(eof);
    proof {
        assert(triples(tokens@) =~= triples(old_tokens) + seq![triple(eof)]);
        assert(triples(tokens@) =~= lex_from(spec@, bs, 0));
        assert(bs.subrange(bs.len() as int, bs.len() as int) =~= Seq::<u8>::empty());
        assert(encode_utf8(eof.text@) =~= Seq::<u8>::empty());
    }
    tokens
}

} // verus!
