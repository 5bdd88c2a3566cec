//! Contiguous regions of memory: a byte slice view whose reads report errors.
use vstd::prelude::*;
use vstd::slice::slice_subrange;

use crate::bytes::{scan_stops_at, scan_until};
use crate::chunk::Chunk;
use crate::error::{Error, ErrorKind, Result};
use crate::range::SliceRange;
use crate::shims::FromInner;
use crate::source::Source;
use crate::span::Span;

verus! {

/// Message of the error [`Bytes::read_until`] returns when it would read no bytes.
pub const EMPTY_READ_UNTIL: &'static str =
    "cannot call `read_until` with a result that yields `0` consumed bytes.";

/// Wrapper type for a borrowed slice of bytes whose reads return errors.
#[derive(Clone, Copy, Debug, PartialEq, Eq, Hash, PartialOrd, Ord)]
pub struct Bytes<'a> {
    inner: &'a [u8],
}

impl<'a> View for Bytes<'a> {
    type V = Seq<u8>;

    closed spec fn view(&self) -> Seq<u8> {
        self.inner@
    }
}

impl<'a> Bytes<'a> {
    /// Creates a new [`Bytes`] value by wrapping a borrowed slice of bytes.
    pub fn new(bytes: &'a [u8]) -> (b: Bytes<'a>)
        ensures
            b@ == bytes@,
    {
        Bytes { inner: bytes }
    }

    /// Creates a new [`Bytes`] value over the bytes of `bytes` from `offset` on. The
    /// slice may not be empty.
    ///
    /// # Errors
    ///
    /// Returns an out-of-bounds error if `bytes.len() < offset`.
    pub fn new_offset(bytes: &'a [u8], offset: usize) -> (r: Result<Bytes<'a>>)
        requires
            bytes@.len() > 0 || offset > 0,
        ensures
            r is Ok <==> offset <= bytes@.len(),
            r matches Ok(b) ==> b@ == bytes@.subrange(offset as int, bytes@.len() as int),
            r matches Err(e) ==> e == Error::spec_out_of_bounds(offset, bytes@.len() as usize),
    {
        if bytes.len() < offset {
            Err(Error::out_of_bounds(offset, bytes.len()))
        } else {
            Ok(Bytes::new_offset_unchecked(bytes, offset))
        }
    }

    /// Creates a new [`Bytes`] value over the bytes of `bytes` from `offset` on,
    /// without a run-time bounds check: the caller must ensure that
    /// `offset <= bytes.len()`, and the slice may not be empty.
    pub fn new_offset_unchecked(bytes: &'a [u8], offset: usize) -> (b: Bytes<'a>)
        requires
            bytes@.len() > 0,
            offset <= bytes@.len(),
        ensures
            b@ == bytes@.subrange(offset as int, bytes@.len() as int),
    {
        Bytes { inner: slice_subrange(bytes, offset, bytes.len()) }
    }

    /// Slices the buffer using a range expression, returning the selected bytes.
    pub fn slice<R: SliceRange>(&self, range: R) -> (s: &'a [u8])
        requires
            range.spec_in_bounds(self@.len()),
        ensures
            s@ == self@.subrange(range.spec_start(self@.len()), range.spec_end(self@.len())),
    {
        let (start, end) = range.bounds(self.inner.len());
        slice_subrange(self.inner, start, end)
    }

    /// Returns the inner byte slice comprising the [`Bytes`] instance.
    pub fn as_slice(&self) -> (s: &'a [u8])
        ensures
            s@ == self@,
    {
        self.inner
    }

    /// Returns an iterator over the bytes, from start to end.
    pub fn iter(&self) -> (it: core::slice::Iter<'a, u8>)
        ensures
            vstd::std_specs::slice::into_iter_elts(it) == self@,
    {
        self.inner.iter()
    }

    /// Returns the number of bytes in the slice.
    pub fn len(&self) -> (n: usize)
        ensures
            n == self@.len(),
    {
        self.inner.len()
    }

    /// Returns `true` if the slice has a length of 0.
    pub fn is_empty(&self) -> (b: bool)
        ensures
            b == (self@.len() == 0),
    {
        self.inner.len() == 0
    }

    /// Returns `None` if `new_start` lies past the end of the buffer. Otherwise
    /// returns the bytes that start at `new_start` and end `new_start` bytes before
    /// the end of the buffer: none if those two positions cross.
    pub fn with_offset(&self, new_start: usize) -> (r: Option<Bytes<'a>>)
        ensures
            r is Some <==> new_start <= self@.len(),
            r matches Some(b) ==> b@ == self@.subrange(
                new_start as int,
                if self@.len() >= 2 * new_start {
                    self@.len() - new_start
                } else {
                    new_start as int
                },
            ),
    {
        if self.inner.len() < new_start {
            None
        } else {
            Some(self.subslice(new_start..self.inner.len() - new_start))
        }
    }

    /// Returns the bytes that start at `range.start` and number
    /// `range.end - range.start`, or none if the range is reversed. The caller must
    /// ensure that they lie within the buffer.
    fn subslice(&self, range: core::ops::Range<usize>) -> (b: Bytes<'a>)
        requires
            range.start <= self@.len(),
            range.end <= range.start || range.end <= self@.len(),
        ensures
            b@ == self@.subrange(
                range.start as int,
                if range.end >= range.start {
                    range.end as int
                } else {
                    range.start as int
                },
            ),
    {
        let len = range.end.saturating_sub(range.start);
        Bytes { inner: slice_subrange(self.inner, range.start, range.start + len) }
    }

    /// Reads the first `count` bytes of the buffer.
    ///
    /// # Errors
    ///
    /// Returns an out-of-bounds error if `count` is greater than the length of the
    /// buffer.
    pub fn read(&self, count: usize) -> (r: Result<Bytes<'a>>)
        ensures
            r is Ok <==> count <= self@.len(),
            r matches Ok(b) ==> b@ == self@.subrange(0, count as int),
            r matches Err(e) ==> e == Error::spec_out_of_bounds(count, self@.len() as usize),
    {
        let remaining = self.inner.len();
        if remaining < count {
            Err(Error::out_of_bounds(count, remaining))
        } else {
            Ok(self.subslice(0..count))
        }
    }

    /// Reads `count` bytes from the buffer, starting at `offset`.
    ///
    /// # Errors
    ///
    /// Returns an out-of-bounds error if `self.len() < offset + count`.
    pub fn read_at(&self, offset: usize, count: usize) -> (r: Result<Bytes<'a>>)
        requires
            offset + count <= usize::MAX,
        ensures
            r is Ok <==> offset + count <= self@.len(),
            r matches Ok(b) ==> b@ == self@.subrange(offset as int, offset + count),
            r matches Err(e) ==> e == Error::spec_out_of_bounds(count, self@.len() as usize),
    {
        let (start, end) = (offset, offset + count);
        if end > self.len() {
            Err(Error::out_of_bounds(count, self.inner.len()))
        } else {
            Ok(self.subslice(start..end))
        }
    }

    /// Reads the bytes indexed by `span`, which must be non-empty and cover exactly as
    /// many bytes as the buffer holds.
    ///
    /// # Errors
    ///
    /// Returns a size-mismatch error if the span is empty or `self.len() != span.size()`,
    /// and an out-of-bounds error if the span does not lie within the buffer.
    pub fn read_spanned(&self, span: Span) -> (r: Result<Bytes<'a>>)
        ensures
            r is Ok <==> span.spec_len() != 0 && span.spec_len() == self@.len()
                && span.spec_start() <= span.spec_end() <= self@.len(),
            r matches Ok(b) ==> b@ == self@.subrange(
                span.spec_start() as int,
                span.spec_end() as int,
            ),
            r matches Err(e) ==> e == (if span.spec_len() == 0 || span.spec_len()
                != self@.len() {
                Error::spec_size_mismatch(span.spec_len() as usize, self@.len() as usize)
            } else {
                Error::spec_out_of_bounds(span.spec_end(), self@.len() as usize)
            }),
    {
        if span.size() == 0 || self.inner.len() != span.size() {
            Err(Error::size_mismatch(span.size(), self.inner.len()))
        } else if span.start() > span.end() || span.end() > self.inner.len() {
            Err(Error::out_of_bounds(span.end(), self.inner.len()))
        } else {
            Ok(self.subslice(span.start()..span.end()))
        }
    }

    /// Reads bytes from the front of the buffer until `predicate` holds of one.
    ///
    /// # Errors
    ///
    /// Returns a verbose error if that leaves no bytes, that is, if `predicate` holds
    /// of the first byte or the buffer is empty.
    pub fn read_until<F: Fn(&u8) -> bool>(&self, predicate: F) -> (r: Result<&'a [u8]>)
        requires
            forall|b: u8| predicate.requires((&b,)),
        ensures
            r matches Ok(s) ==> s@.len() > 0 && s@ == self@.subrange(0, s@.len() as int)
                && scan_stops_at(self@, predicate, s@.len() as int),
            r matches Err(e) ==> scan_stops_at(self@, predicate, 0) && e.spec_kind() == (
            ErrorKind::Verbose { message: EMPTY_READ_UNTIL }),
    {
        let pos = scan_until(self.inner, &predicate);
        if pos == 0 {
            Err(Error::verbose(EMPTY_READ_UNTIL))
        } else {
            Ok(self.subslice(0..pos).as_slice())
        }
    }
}

impl<'a> Source for Bytes<'a> {
    open spec fn source_view(&self) -> Seq<u8> {
        self@
    }

    open spec fn spec_slice_at_error(&self, offset: usize, size: usize) -> Error {
        Error::spec_out_of_bounds(size, self@.len() as usize)
    }

    open spec fn spec_chunk_at_error(&self, offset: usize, size: usize) -> Error {
        Error::spec_out_of_bounds((offset + size) as usize, self@.len() as usize)
    }

    fn source_len(&self) -> (n: usize) {
        self.inner.len()
    }

    fn read_slice(&self, size: usize) -> (r: Result<&[u8]>) {
        self.inner.read_slice(size)
    }

    fn read_slice_at(&self, offset: usize, size: usize) -> (r: Result<&[u8]>) {
        match self.inner.read_slice_at(offset, size) {
            Ok(s) => Ok(s),
            Err(_) => Err(Error::out_of_bounds(size, self.inner.len())),
        }
    }

    fn read_chunk<const LEN: usize>(&self) -> (r: Result<Chunk<LEN>>) {
        Chunk::<LEN>::from_bytes(self.inner)
    }

    fn read_chunk_at<const LEN: usize>(&self, offset: usize) -> (r: Result<Chunk<LEN>>) {
        Chunk::<LEN>::from_bytes_at(self.inner, offset)
    }
}

impl<'a> From<&'a [u8]> for Bytes<'a> {
    fn from(bytes: &'a [u8]) -> (b: Bytes<'a>)
        ensures
            b@ == bytes@,
    {
        Bytes { inner: bytes }
    }
}

impl<'a> vstd::std_specs::convert::FromSpecImpl<&'a [u8]> for Bytes<'a> {
    open spec fn obeys_from_spec() -> bool {
        true
    }

    closed spec fn from_spec(bytes: &'a [u8]) -> Bytes<'a> {
        Bytes { inner: bytes }
    }
}

impl<'a, const N: usize> FromInner<&'a [u8; N]> for Bytes<'a> {
    fn from_inner(inner: &'a [u8; N]) -> (b: Bytes<'a>)
        ensures
            b@ == inner@,
    {
        Bytes::new(inner.as_slice())
    }
}

impl<'a> core::ops::Deref for Bytes<'a> {
    type Target = [u8];

    fn deref(&self) -> (s: &[u8])
        ensures
            s@ == self@,
    {
        self.as_slice()
    }
}

impl<'a> AsRef<[u8]> for Bytes<'a> {
    fn as_ref(&self) -> (s: &[u8])
        ensures
            s@ == self@,
    {
        self.as_slice()
    }
}

} // verus!
