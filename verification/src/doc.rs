//! An open document: its text, held in a rope, and the cursor, a byte offset
//! (the unit the completion engine indexes the text by).
use vstd::prelude::*;
use vstd::utf8::*;

use ropey::Rope;

verus! {

#[verifier::external_type_specification]
#[verifier::external_body]
pub struct ExRope(Rope);

/// The characters a rope holds.
pub uninterp spec fn rope_chars(r: Rope) -> Seq<char>;

/// The char index where a line of the text starts (`Rope::line_to_char`).
pub uninterp spec fn line_start(text: Seq<char>, line: int) -> int;

/// How many lines the text has (`Rope::len_lines`).
pub uninterp spec fn line_count(text: Seq<char>) -> int;

/// The line a byte offset of the text falls on (`Rope::byte_to_line`).
pub uninterp spec fn line_of_byte(text: Seq<char>, byte: int) -> int;

/// How many bytes the first `n` chars take in UTF-8.
pub open spec fn byte_len(text: Seq<char>, n: int) -> int {
    encode_utf8(text.subrange(0, n)).len() as int
}

/// The index of the char a byte offset falls in: the most chars whose
/// encoding ends at or before the offset (all of them past the end).
pub open spec fn char_of_byte(text: Seq<char>, byte: int) -> int
    decreases text.len(),
{
    if text.len() == 0 || byte_len(text, text.len() as int) <= byte {
        text.len() as int
    } else {
        char_of_byte(text.drop_last(), byte)
    }
}

/// `Rope::from_str`: a rope holding the text.
#[verifier::external_body]
fn rope_from_str(s: &str) -> (r: Rope)
    ensures
        rope_chars(r) == s@,
{
    Rope::from_str(s)
}

/// `Rope::new`: an empty rope.
#[verifier::external_body]
fn rope_new() -> (r: Rope)
    ensures
        rope_chars(r) == Seq::<char>::empty(),
{
    Rope::new()
}

/// `Rope::len_chars`: how many chars the rope holds.
#[verifier::external_body]
fn rope_len_chars(r: &Rope) -> (n: usize)
    ensures
        n == rope_chars(*r).len(),
{
    r.len_chars()
}

/// `Rope::len_bytes`: how many bytes the rope's text takes in UTF-8.
#[verifier::external_body]
fn rope_len_bytes(r: &Rope) -> (n: usize)
    ensures
        n == encode_utf8(rope_chars(*r)).len(),
{
    r.len_bytes()
}

/// `Rope::len_lines`: how many lines the rope's text has; at least one.
#[verifier::external_body]
fn rope_len_lines(r: &Rope) -> (n: usize)
    ensures
        n == line_count(rope_chars(*r)),
        n >= 1,
{
    r.len_lines()
}

/// `Rope::line_to_char`: where a line starts, as a char index; the line
/// one past the last gives the end of the text.
#[verifier::external_body]
fn rope_line_to_char(r: &Rope, line: usize) -> (c: usize)
    requires
        line <= line_count(rope_chars(*r)),
    ensures
        c == line_start(rope_chars(*r), line as int),
        c <= rope_chars(*r).len(),
        line == line_count(rope_chars(*r)) ==> c == rope_chars(*r).len(),
{
    r.line_to_char(line)
}

/// `Rope::char_to_byte`: the byte offset a char index starts at.
#[verifier::external_body]
fn rope_char_to_byte(r: &Rope, c: usize) -> (b: usize)
    requires
        c <= rope_chars(*r).len(),
    ensures
        b == byte_len(rope_chars(*r), c as int),
{
    r.char_to_byte(c)
}

/// `Rope::byte_to_char`: the index of the char a byte offset falls in.
#[verifier::external_body]
fn rope_byte_to_char(r: &Rope, b: usize) -> (c: usize)
    requires
        b <= encode_utf8(rope_chars(*r)).len(),
    ensures
        c == char_of_byte(rope_chars(*r), b as int),
{
    r.byte_to_char(b)
}

/// `Rope::byte_to_line`: the line a byte offset falls on; it starts at or
/// before the char the byte falls in.
#[verifier::external_body]
fn rope_byte_to_line(r: &Rope, b: usize) -> (l: usize)
    requires
        b <= encode_utf8(rope_chars(*r)).len(),
    ensures
        l == line_of_byte(rope_chars(*r), b as int),
        l < line_count(rope_chars(*r)),
        line_start(rope_chars(*r), l as int) <= char_of_byte(rope_chars(*r), b as int),
{
    r.byte_to_line(b)
}

/// `Rope::remove`: take out the chars in `start..end`.
#[verifier::external_body]
fn rope_remove(r: &mut Rope, start: usize, end: usize)
    requires
        start <= end <= rope_chars(*old(r)).len(),
    ensures
        rope_chars(*final(r)) == rope_chars(*old(r)).subrange(0, start as int) + rope_chars(
            *old(r),
        ).subrange(end as int, rope_chars(*old(r)).len() as int),
{
    r.remove(start..end)
}

/// `Rope::insert`: put the text in at a char index.
#[verifier::external_body]
fn rope_insert(r: &mut Rope, at: usize, text: &str)
    requires
        at <= rope_chars(*old(r)).len(),
    ensures
        rope_chars(*final(r)) == rope_chars(*old(r)).subrange(0, at as int) + text@ + rope_chars(
            *old(r),
        ).subrange(at as int, rope_chars(*old(r)).len() as int),
{
    r.insert(at, text)
}

/// The rope's text as a string (its `Display`).
#[verifier::external_body]
fn rope_to_string(r: &Rope) -> (s: String)
    ensures
        s@ == rope_chars(*r),
{
    r.to_string()
}

/// A place in the document: an offset, or a line and a column (both
/// zero-based).
#[derive(Debug, Clone, Copy, PartialEq, Eq, Structural)]
pub enum Location {
    Offset(usize),
    LineCol(usize, usize),
}

impl From<usize> for Location {
    fn from(offset: usize) -> (res: Self) {
        Location::Offset(offset)
    }
}

impl vstd::std_specs::convert::FromSpecImpl<usize> for Location {
    open spec fn obeys_from_spec() -> bool {
        true
    }

    open spec fn from_spec(offset: usize) -> Self {
        Location::Offset(offset)
    }
}

impl From<(usize, usize)> for Location {
    fn from(lc: (usize, usize)) -> (res: Self) {
        Location::LineCol(lc.0, lc.1)
    }
}

impl vstd::std_specs::convert::FromSpecImpl<(usize, usize)> for Location {
    open spec fn obeys_from_spec() -> bool {
        true
    }

    open spec fn from_spec(lc: (usize, usize)) -> Self {
        Location::LineCol(lc.0, lc.1)
    }
}

/// Whether a location can be resolved in the text: its line exists (one
/// past the last counts) and the column keeps the offset in range.
pub open spec fn resolvable(text: Seq<char>, loc: Location) -> bool {
    match loc {
        Location::Offset(_) => true,
        Location::LineCol(line, col) => line <= line_count(text) && line_start(text, line as int)
            + col <= text.len(),
    }
}

/// The char offset of a location: the offset itself, or the line's start plus
/// the column.
pub open spec fn spec_char_offset(text: Seq<char>, loc: Location) -> int {
    match loc {
        Location::Offset(o) => o as int,
        Location::LineCol(line, col) => line_start(text, line as int) + col,
    }
}

/// The byte offset of a location: the offset itself, or the byte offset of
/// the line's start plus the column (in chars).
pub open spec fn spec_byte_offset(text: Seq<char>, loc: Location) -> int {
    match loc {
        Location::Offset(o) => o as int,
        Location::LineCol(line, col) => byte_len(text, line_start(text, line as int) + col),
    }
}

/// The line and column of a location: for an offset (clamped to the end of
/// the text) its line and its char column in that line; a line and column
/// as they are.
pub open spec fn spec_line_col(text: Seq<char>, loc: Location) -> (int, int) {
    match loc {
        Location::Offset(byte) => {
            let len = encode_utf8(text).len() as int;
            let b = if byte < len { byte as int } else { len };
            let line = line_of_byte(text, b);
            (line, char_of_byte(text, b) - line_start(text, line))
        },
        Location::LineCol(line, col) => (line as int, col as int),
    }
}

/// The text with the chars from `s` to `e` replaced by `n`.
pub open spec fn spliced(t: Seq<char>, s: int, e: int, n: Seq<char>) -> Seq<char> {
    t.subrange(0, s) + n + t.subrange(e, t.len() as int)
}

/// Replacing a range and then replacing the inserted text with what was
/// there before gives the text back: an edit is undone by its inverse edit.
pub proof fn law_edit_undone_by_inverse(t: Seq<char>, s: int, e: int, n: Seq<char>)
    requires
        0 <= s <= e <= t.len(),
    ensures
        spliced(spliced(t, s, e, n), s, s + n.len(), t.subrange(s, e)) == t,
{
    let u = spliced(t, s, e, n);
    assert(u.subrange(0, s) =~= t.subrange(0, s));
    assert(u.subrange(s + n.len(), u.len() as int) =~= t.subrange(e, t.len() as int));
    assert(spliced(u, s, s + n.len(), t.subrange(s, e)) =~= t);
}

/// An open document.
#[derive(Debug)]
pub struct Content {
    text: Rope,
    cursor: usize,
}

impl Default for Content {
    fn default() -> (res: Self)
        ensures
            res.text() == Seq::<char>::empty(),
            res.cursor_at() == 0,
    {
        Content { text: rope_new(), cursor: 0 }
    }
}

impl Content {
    /// The document's text.
    pub closed spec fn text(&self) -> Seq<char> {
        rope_chars(self.text)
    }

    /// The cursor, a byte offset.
    pub closed spec fn cursor_at(&self) -> nat {
        self.cursor as nat
    }

    /// A document holding the text, with the cursor at the start.
    pub fn new(content: &str) -> (res: Self)
        ensures
            res.text() == content@,
            res.cursor_at() == 0,
    {
        Content { text: rope_from_str(content), cursor: 0 }
    }

    /// The cursor, a byte offset.
    pub fn cursor(&self) -> (res: usize)
        ensures
            res == self.cursor_at(),
    {
        self.cursor
    }

    /// The rope holding the text.
    pub fn content(&self) -> (res: &Rope)
        ensures
            rope_chars(*res) == self.text(),
    {
        &self.text
    }

    /// Replace the whole text; the cursor stays.
    pub fn set_content(&mut self, content: &str)
        ensures
            final(self).text() == content@,
            final(self).cursor_at() == old(self).cursor_at(),
    {
        self.text = rope_from_str(content);
    }

    /// Replace the chars from `start` to `end` with `new_text`; the cursor
    /// stays.
    pub fn apply_edit(&mut self, start: Location, end: Location, new_text: &str)
        requires
            resolvable(old(self).text(), start),
            resolvable(old(self).text(), end),
            spec_char_offset(old(self).text(), start) <= spec_char_offset(old(self).text(), end)
                <= old(self).text().len(),
        ensures
            ({
                let t = old(self).text();
                let s = spec_char_offset(t, start);
                let e = spec_char_offset(t, end);
                final(self).text() == spliced(t, s, e, new_text@)
            }),
            final(self).cursor_at() == old(self).cursor_at(),
    {
        let ghost t = self.text();
        let s = self.char_offset(start);
        let e = self.char_offset(end);
        rope_remove(&mut self.text, s, e);
        let ghost removed = rope_chars(self.text);
        assert(removed.subrange(0, s as int) =~= t.subrange(0, s as int));
        assert(removed.subrange(s as int, removed.len() as int) =~= t.subrange(
            e as int,
            t.len() as int,
        ));
        rope_insert(&mut self.text, s, new_text);
    }

    /// Replace the chars from `start` to `end` with `new_text` where both
    /// locations resolve and come in order within the text; whether it did.
    pub fn try_apply_edit(&mut self, start: Location, end: Location, new_text: &str) -> (res: bool)
        ensures
            res == (resolvable(old(self).text(), start) && resolvable(old(self).text(), end)
                && spec_char_offset(old(self).text(), start) <= spec_char_offset(
                old(self).text(),
                end,
            ) <= old(self).text().len()),
            res ==> ({
                let t = old(self).text();
                let s = spec_char_offset(t, start);
                let e = spec_char_offset(t, end);
                final(self).text() == spliced(t, s, e, new_text@)
            }),
            !res ==> final(self).text() == old(self).text(),
            final(self).cursor_at() == old(self).cursor_at(),
    {
        let n = rope_len_chars(&self.text);
        let s = match self.checked_char_offset(start) {
            Some(s) => s,
            None => return false,
        };
        let e = match self.checked_char_offset(end) {
            Some(e) => e,
            None => return false,
        };
        if s > e || e > n {
            return false;
        }
        self.apply_edit(start, end, new_text);
        true
    }

    /// Put the cursor at a location, stored as a byte offset.
    pub fn set_cursor(&mut self, cursor: Location)
        requires
            resolvable(old(self).text(), cursor),
        ensures
            final(self).cursor_at() == spec_byte_offset(old(self).text(), cursor),
            final(self).text() == old(self).text(),
    {
        self.cursor = self.byte_offset(cursor);
    }

    /// Put the cursor at a location where it resolves; whether it did.
    pub fn try_set_cursor(&mut self, cursor: Location) -> (res: bool)
        ensures
            res == resolvable(old(self).text(), cursor),
            res ==> final(self).cursor_at() == spec_byte_offset(old(self).text(), cursor),
            !res ==> final(self).cursor_at() == old(self).cursor_at(),
            final(self).text() == old(self).text(),
    {
        let n = rope_len_chars(&self.text);
        if let Location::LineCol(_, _) = cursor {
            match self.checked_char_offset(cursor) {
                Some(c) => {
                    if c > n {
                        return false;
                    }
                },
                None => return false,
            }
        }
        self.set_cursor(cursor);
        true
    }

    /// The document's text.
    pub fn to_string(&self) -> (res: String)
        ensures
            res@ == self.text(),
    {
        rope_to_string(&self.text)
    }

    /// The char offset of a location (for editing).
    fn char_offset(&self, location: Location) -> (res: usize)
        requires
            resolvable(self.text(), location),
        ensures
            res == spec_char_offset(self.text(), location),
    {
        match location {
            Location::Offset(offset) => offset,
            Location::LineCol(line, col) => {
                // The text fits in memory, so its length bounds the offset.
                let _len = rope_len_chars(&self.text);
                rope_line_to_char(&self.text, line) + col
            },
        }
    }

    /// The char offset of a location where its line exists and the offset
    /// fits in a `usize`.
    fn checked_char_offset(&self, location: Location) -> (res: Option<usize>)
        ensures
            res is Some <==> match location {
                Location::Offset(_) => true,
                Location::LineCol(line, col) => line <= line_count(self.text()) && line_start(
                    self.text(),
                    line as int,
                ) + col <= usize::MAX,
            },
            res matches Some(v) ==> v == spec_char_offset(self.text(), location),
    {
        match location {
            Location::Offset(offset) => Some(offset),
            Location::LineCol(line, col) => {
                if line > rope_len_lines(&self.text) {
                    return None;
                }
                let start = rope_line_to_char(&self.text, line);
                start.checked_add(col)
            },
        }
    }

    /// The byte offset of a location (for the cursor).
    fn byte_offset(&self, location: Location) -> (res: usize)
        requires
            resolvable(self.text(), location),
        ensures
            res == spec_byte_offset(self.text(), location),
    {
        match location {
            Location::Offset(offset) => offset,
            Location::LineCol(line, col) => {
                // The text fits in memory, so its length bounds the offset.
                let _len = rope_len_chars(&self.text);
                let c = rope_line_to_char(&self.text, line) + col;
                rope_char_to_byte(&self.text, c)
            },
        }
    }

    /// The line and column of a location; an offset is a byte offset, clamped
    /// to the end of the text, and its column counts chars.
    pub fn get_line_col(&self, location: Location) -> (res: (usize, usize))
        ensures
            (res.0 as int, res.1 as int) == spec_line_col(self.text(), location),
    {
        match location {
            Location::Offset(byte) => {
                let len = rope_len_bytes(&self.text);
                let byte = if byte < len {
                    byte
                } else {
                    len
                };
                let line = rope_byte_to_line(&self.text, byte);
                let col = rope_byte_to_char(&self.text, byte) - rope_line_to_char(&self.text, line);
                (line, col)
            },
            Location::LineCol(line, col) => (line, col),
        }
    }
}

} // verus!
