use crate::span as internal_span;
use vstd::prelude::*;

verus! {

/// A byte range of the source text, as the compiler hands it out.
#[derive(Clone, Copy, Debug, PartialEq, Eq, Structural)]
pub struct Span {
    pub offset: usize,
    pub length: usize,
}

impl Span {
    pub open spec fn spec_from_span(s: internal_span::Span) -> Span {
        Span { offset: s.offset, length: s.len }
    }

    pub fn from_span(s: internal_span::Span) -> (r: Span)
        ensures
            r == Self::spec_from_span(s),
    {
        Span { offset: s.offset, length: s.len }
    }
}

} // verus!
