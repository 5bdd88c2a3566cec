//! A region of memory defined by a pair of indices marking the start and end offsets
//! of an object in memory.
use vstd::prelude::*;
use vstd::slice::slice_subrange;

use crate::chunk::Chunk;
use crate::error::{Error, Result};
use crate::source::{Slice, Source};

verus! {

/// A region of memory defined by a start offset and an end offset.
///
/// Spans are used as an adapter type that selects a part of a byte slice, or of a
/// fixed size chunk.
#[derive(Clone, Copy, Debug, PartialEq, Eq, Hash, PartialOrd, Ord)]
pub struct Span {
    /// Start offset of the span.
    start: usize,
    /// End offset of the span.
    end: usize,
}

impl Span {
    /// The start offset of the span.
    pub closed spec fn spec_start(self) -> usize {
        self.start
    }

    /// The end offset of the span.
    pub closed spec fn spec_end(self) -> usize {
        self.end
    }

    /// The number of bytes the span covers: zero when its end lies before its start.
    pub open spec fn spec_len(self) -> nat {
        if self.spec_end() >= self.spec_start() {
            (self.spec_end() - self.spec_start()) as nat
        } else {
            0
        }
    }

    /// Creates a new [`Span`] that starts at `start` and covers `size` bytes.
    pub fn new(start: usize, size: usize) -> (s: Span)
        requires
            start + size <= usize::MAX,
        ensures
            s.spec_start() == start,
            s.spec_end() == start + size,
    {
        Span { start, end: start + size }
    }

    /// Creates a new [`Span`] covering all the indices of the `bytes` slice.
    pub fn from_bytes(bytes: &[u8]) -> (s: Span)
        ensures
            s.spec_start() == 0,
            s.spec_end() == bytes@.len(),
    {
        Span { start: 0, end: bytes.len() }
    }

    /// Creates a new [`Span`] covering all the bytes of a [`Source`].
    pub fn from_source<S: Source>(source: &S) -> (s: Span)
        ensures
            s.spec_start() == 0,
            s.spec_end() == source.source_view().len(),
    {
        Span { start: 0, end: source.source_len() }
    }

    /// Creates a new [`Span`] covering all the bytes of a [`Source`]; the span `self`
    /// plays no part in the result.
    pub fn span_source<S: Source>(&self, source: &S) -> (s: Span)
        ensures
            s.spec_start() == 0,
            s.spec_end() == source.source_view().len(),
    {
        Span { start: 0, end: source.source_len() }
    }

    /// Creates a new [`Span`] covering all the bytes of a chunk.
    pub fn from_chunk<const N: usize>(chunk: Chunk<N>) -> (s: Span)
        ensures
            s.spec_start() == 0,
            s.spec_end() == N,
    {
        Span { start: 0, end: chunk.len() }
    }

    /// Returns the span covering as many bytes as `self`, starting at index 0, if
    /// `source` holds the bytes `self` covers; otherwise returns `None`.
    pub fn from_slice(&self, source: &[u8]) -> (r: Option<Span>)
        ensures
            r is Some <==> self.spec_start() + self.spec_len() <= source@.len(),
            r matches Some(s) ==> s.spec_start() == 0 && s.spec_end() == self.spec_len(),
    {
        let size = self.size();
        if self.start <= source.len() && size <= source.len() - self.start {
            Some(Span { start: 0, end: size })
        } else {
            None
        }
    }

    /// Returns the number of bytes this [`Span`] covers.
    pub fn size(&self) -> (n: usize)
        ensures
            n == self.spec_len(),
    {
        self.end.saturating_sub(self.start)
    }

    /// Returns the number of bytes this [`Span`] covers.
    pub fn len(&self) -> (n: usize)
        ensures
            n == self.spec_len(),
    {
        self.end.saturating_sub(self.start)
    }

    /// Returns `true` if the span covers no bytes.
    pub fn is_empty(&self) -> (b: bool)
        ensures
            b == (self.spec_len() == 0),
    {
        self.len() == 0
    }

    /// Returns the start of this span, also referred to as its offset.
    pub fn start(&self) -> (n: usize)
        ensures
            n == self.spec_start(),
    {
        self.start
    }

    /// Returns the end of the span, its upper bound.
    pub fn end(&self) -> (n: usize)
        ensures
            n == self.spec_end(),
    {
        self.end
    }

    /// Converts this [`Span`] into a `Range<usize>`.
    pub fn as_range(&self) -> (r: core::ops::Range<usize>)
        ensures
            r.start == self.spec_start(),
            r.end == self.spec_end(),
    {
        core::ops::Range { start: self.start, end: self.end }
    }

    /// Returns a [`Slice`] of the `size` bytes of `bytes` that start at `offset`.
    ///
    /// # Errors
    ///
    /// Returns an out-of-bounds error if `bytes.len() < offset + size`.
    pub fn span_bytes<'a>(bytes: &'a [u8], offset: usize, size: usize) -> (r: Result<Slice<'a>>)
        requires
            offset + size <= usize::MAX,
        ensures
            r is Ok <==> offset + size <= bytes@.len(),
            r matches Ok(s) ==> s@ == bytes@.subrange(offset as int, offset + size),
            r matches Err(e) ==> e == Error::spec_out_of_bounds(
                (offset + size) as usize,
                bytes@.len() as usize,
            ),
    {
        let span = Span::new(offset, size);
        if bytes.len() < span.end() {
            Err(Error::out_of_bounds(span.end(), bytes.len()))
        } else {
            Ok(Slice::from_slice(slice_subrange(bytes, span.start(), span.end())))
        }
    }

}

impl From<core::ops::Range<usize>> for Span {
    fn from(range: core::ops::Range<usize>) -> (s: Span)
        ensures
            s.spec_start() == range.start,
            s.spec_end() == range.end,
    {
        Span { start: range.start, end: range.end }
    }
}

impl vstd::std_specs::convert::FromSpecImpl<core::ops::Range<usize>> for Span {
    open spec fn obeys_from_spec() -> bool {
        true
    }

    closed spec fn from_spec(range: core::ops::Range<usize>) -> Span {
        Span { start: range.start, end: range.end }
    }
}

impl From<Span> for core::ops::Range<usize> {
    fn from(span: Span) -> (r: core::ops::Range<usize>)
        ensures
            r.start == span.spec_start(),
            r.end == span.spec_end(),
    {
        core::ops::Range { start: span.start, end: span.end }
    }
}

impl vstd::std_specs::convert::FromSpecImpl<Span> for core::ops::Range<usize> {
    open spec fn obeys_from_spec() -> bool {
        true
    }

    open spec fn from_spec(span: Span) -> core::ops::Range<usize> {
        core::ops::Range { start: span.spec_start(), end: span.spec_end() }
    }
}

impl core::ops::Add<usize> for Span {
    type Output = usize;

    /// Returns the start of the span moved forward by `other`.
    fn add(self, other: usize) -> (r: usize) {
        self.start + other
    }
}

impl vstd::std_specs::ops::AddSpecImpl<usize> for Span {
    open spec fn obeys_add_spec() -> bool {
        true
    }

    open spec fn add_req(self, other: usize) -> bool {
        self.spec_start() + other <= usize::MAX
    }

    open spec fn add_spec(self, other: usize) -> usize {
        (self.spec_start() + other) as usize
    }
}

impl core::ops::Add<Span> for Span {
    type Output = Span;

    /// Returns the span that starts at the sum of the two starts and covers as many
    /// bytes as the sum of the two ends.
    fn add(self, other: Span) -> (r: Span) {
        Span::new(self.start + other.start, self.end + other.end)
    }
}

impl vstd::std_specs::ops::AddSpecImpl<Span> for Span {
    open spec fn obeys_add_spec() -> bool {
        true
    }

    open spec fn add_req(self, other: Span) -> bool {
        self.spec_start() + other.spec_start() + self.spec_end() + other.spec_end() <= usize::MAX
    }

    open spec fn add_spec(self, other: Span) -> Span {
        Span::spec_new(
            (self.spec_start() + other.spec_start()) as usize,
            (self.spec_start() + other.spec_start() + self.spec_end() + other.spec_end()) as usize,
        )
    }
}

impl Span {
    /// The span with the given start and end offsets.
    pub closed spec fn spec_new(start: usize, end: usize) -> Span {
        Span { start, end }
    }
}

impl Span {
    /// Moves the start of the span forward by `rhs`; the end moves forward by `rhs`
    /// too, unless the new start lies past it, in which case the end is set to the
    /// new start.
    pub fn add_assign(&mut self, rhs: usize)
        requires
            old(self).spec_start() + rhs <= usize::MAX,
            old(self).spec_start() + rhs <= old(self).spec_end() ==> old(self).spec_end() + rhs
                <= usize::MAX,
        ensures
            final(self).spec_start() == old(self).spec_start() + rhs,
            final(self).spec_end() == if old(self).spec_start() + rhs > old(self).spec_end() {
                old(self).spec_start() + rhs
            } else {
                old(self).spec_end() + rhs
            },
    {
        let mut start = self.start;
        let mut end = self.end;
        start += rhs;
        let end = if start > end {
            end = start;
            end
        } else {
            end += rhs;
            end
        };
        *self = Self { start, end };
    }
}

} // verus!
