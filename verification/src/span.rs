use vstd::prelude::*;
use vstd::utf8::*;
use vstd::string::*;

verus! {

/// A span and an item.
#[derive(Debug, Clone, Copy, PartialEq)]
pub struct Loc<T> {
    pub span: Span,
    pub item: T,
}

impl<T> Loc<T> {
    pub fn new(span: Span, kind: T) -> (res: Self)
        ensures
            res.span == span,
            res.item == kind,
    {
        Loc { span, item: kind }
    }
}

/// Byte span of a token: the half-open range `start..end`.
#[derive(Clone, Copy, Debug, PartialEq, Eq, Structural)]
pub struct Span {
    pub start: usize,
    pub end: usize,
}

impl Span {
    pub open spec fn spec_contains(self, pos: int) -> bool {
        self.start <= pos < self.end
    }

    pub open spec fn spec_contains_inclusive(self, pos: int) -> bool {
        self.start <= pos <= self.end
    }

    pub open spec fn spec_join(self, other: Span) -> Span {
        Span {
            start: if self.start <= other.start { self.start } else { other.start },
            end: if self.end >= other.end { self.end } else { other.end },
        }
    }

    pub fn new(start: usize, end: usize) -> (res: Self)
        ensures
            res.start == start,
            res.end == end,
    {
        Span { start, end }
    }

    /// Whether `pos` lies in the half-open range `start..end`.
    pub fn contains(&self, pos: usize) -> (res: bool)
        ensures
            res == self.spec_contains(pos as int),
    {
        pos >= self.start && pos < self.end
    }

    /// Whether `pos` lies in the closed range `start..=end`.
    pub fn contains_inclusive(&self, pos: usize) -> (res: bool)
        ensures
            res == self.spec_contains_inclusive(pos as int),
    {
        pos >= self.start && pos <= self.end
    }

    pub fn is_at_end(&self, pos: usize) -> (res: bool)
        ensures
            res == (pos == self.end),
    {
        pos == self.end
    }

    /// The smallest span that covers both spans.
    pub fn join(self, other: Span) -> (res: Span)
        ensures
            res == self.spec_join(other),
    {
        Span {
            start: if self.start <= other.start { self.start } else { other.start },
            end: if self.end >= other.end { self.end } else { other.end },
        }
    }

    /// The text that the span covers in `input`.
    pub fn as_str<'a>(&self, input: &'a str) -> (res: &'a str)
        requires
            self.start <= self.end <= input.spec_bytes().len(),
            is_char_boundary(input.spec_bytes(), self.start as int),
            is_char_boundary(input.spec_bytes(), self.end as int),
        ensures
            res.spec_bytes() == input.spec_bytes().subrange(self.start as int, self.end as int),
    {
        crate::text::substring(input, self.start, self.end)
    }
}

/// Joining spans is commutative.
pub proof fn lemma_join_commutative(a: Span, b: Span)
    ensures
        a.spec_join(b) == b.spec_join(a),
{
}

/// The joined span covers every position that either span covers.
pub proof fn lemma_join_covers(a: Span, b: Span, pos: int)
    requires
        a.spec_contains(pos) || b.spec_contains(pos),
    ensures
        a.spec_join(b).spec_contains(pos),
{
}

} // verus!
