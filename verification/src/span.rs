use vstd::prelude::*;

verus! {

/// A byte range of the source text: `len` bytes starting at byte `offset`.
#[derive(Clone, Copy, Debug, PartialEq, Eq, Structural)]
pub struct Span {
    pub offset: usize,
    pub len: usize,
}

impl Span {
    pub fn new(offset: usize, len: usize) -> (s: Span)
        ensures
            s.offset == offset,
            s.len == len,
    {
        Span { offset, len }
    }

    /// The empty span at the very beginning of the source, used for nodes
    /// that stand for something that is not in the source text.
    pub fn err_span() -> (s: Span)
        ensures
            s.offset == 0,
            s.len == 0,
    {
        Span { offset: 0, len: 0 }
    }

    /// Joins two spans: the result starts where `self` starts and ends where
    /// `other` ends, so it covers both and what lies between them.
    /// (Should `other` end before `self` starts, or its end not fit in
    /// `usize`, the result is empty.)
    pub fn to(&self, other: Span) -> (s: Span)
        ensures
            s == self.joined(other),
            s.offset == self.offset,
            self.offset <= other.end() <= usize::MAX ==> s.len == other.end() - self.offset,
    {
        match other.offset.checked_add(other.len) {
            Some(end) => if end >= self.offset {
                Span { offset: self.offset, len: end - self.offset }
            } else {
                Span { offset: self.offset, len: 0 }
            },
            None => Span { offset: self.offset, len: 0 },
        }
    }

    /// The span that `to` makes of `self` and `other`.
    pub open spec fn joined(self, other: Span) -> Span {
        Span {
            offset: self.offset,
            len: if self.offset <= other.end() <= usize::MAX {
                (other.end() - self.offset) as usize
            } else {
                0
            },
        }
    }

    /// The first byte after the span.
    pub open spec fn end(self) -> int {
        self.offset + self.len
    }
}

} // verus!
