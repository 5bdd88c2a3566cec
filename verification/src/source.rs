//! Input sources of bytes, and the borrowed [`Slice`] view over them.
use vstd::prelude::*;
use vstd::slice::slice_subrange;

use crate::chunk::Chunk;
use crate::error::{Error, Result};
use crate::range::SliceRange;
use crate::shims::FromInner;
use crate::span::Span;

verus! {

/// Returns the `size` bytes of `bytes` that start at `offset`.
fn read_bytes_at(bytes: &[u8], offset: usize, size: usize) -> (r: Result<&[u8]>)
    requires
        offset + size <= usize::MAX,
    ensures
        r is Ok <==> offset + size <= bytes@.len(),
        r matches Ok(s) ==> s@ == bytes@.subrange(offset as int, offset + size),
        r matches Err(e) ==> e == Error::spec_out_of_bounds(
            (offset + size) as usize,
            bytes@.len() as usize,
        ),
{
    if bytes.len() < offset + size {
        Err(Error::out_of_bounds(offset + size, bytes.len()))
    } else {
        Ok(slice_subrange(bytes, offset, offset + size))
    }
}

/// Types that represent valid memory for use as an input source of bytes.
///
/// The methods read slices and fixed size chunks out of the source; they perform no
/// file or network I/O. A source does not account for endianness itself: see
/// [`Endianness`][crate::endian::Endianness] for endian-aware reads.
pub trait Source {
    /// The bytes comprising the source.
    spec fn source_view(&self) -> Seq<u8>;

    /// Returns the number of bytes comprising the source.
    fn source_len(&self) -> (n: usize)
        ensures
            n == self.source_view().len(),
    ;

    /// Reads the first `size` bytes of this source.
    ///
    /// # Errors
    ///
    /// Returns an out-of-bounds error if `size` exceeds the length of the source.
    fn read_slice(&self, size: usize) -> (r: Result<&[u8]>)
        ensures
            r is Ok <==> size <= self.source_view().len(),
            r matches Ok(s) ==> s@ == self.source_view().subrange(0, size as int),
            r matches Err(e) ==> e == Error::spec_out_of_bounds(
                size,
                self.source_view().len() as usize,
            ),
    ;

    /// The error that [`Source::read_slice_at`] returns when the source holds fewer
    /// than `offset + size` bytes.
    spec fn spec_slice_at_error(&self, offset: usize, size: usize) -> Error;

    /// Reads the `size` bytes of this source that start at `offset`.
    ///
    /// # Errors
    ///
    /// Returns an error, [`Source::spec_slice_at_error`], if `offset + size` exceeds
    /// the length of the source.
    fn read_slice_at(&self, offset: usize, size: usize) -> (r: Result<&[u8]>)
        requires
            offset + size <= usize::MAX,
        ensures
            r is Ok <==> offset + size <= self.source_view().len(),
            r matches Ok(s) ==> s@ == self.source_view().subrange(offset as int, offset + size),
            r matches Err(e) ==> e == self.spec_slice_at_error(offset, size),
    ;

    /// Reads the first `LEN` bytes of this source into a [`Chunk`].
    ///
    /// # Errors
    ///
    /// Returns an out-of-bounds error if `LEN` exceeds the length of the source.
    fn read_chunk<const LEN: usize>(&self) -> (r: Result<Chunk<LEN>>)
        ensures
            r is Ok <==> LEN <= self.source_view().len(),
            r matches Ok(c) ==> c@ == self.source_view().subrange(0, LEN as int),
            r matches Err(e) ==> e == Error::spec_out_of_bounds(
                LEN,
                self.source_view().len() as usize,
            ),
    ;

    /// The error that [`Source::read_chunk_at`] returns when the source holds fewer
    /// than `offset + LEN` bytes.
    spec fn spec_chunk_at_error(&self, offset: usize, size: usize) -> Error;

    /// Reads the `LEN` bytes of this source that start at `offset` into a [`Chunk`].
    ///
    /// # Errors
    ///
    /// Returns an error, [`Source::spec_chunk_at_error`] with `size == LEN`, if
    /// `offset + LEN` exceeds the length of the source.
    fn read_chunk_at<const LEN: usize>(&self, offset: usize) -> (r: Result<Chunk<LEN>>)
        requires
            offset + LEN <= usize::MAX,
        ensures
            r is Ok <==> offset + LEN <= self.source_view().len(),
            r matches Ok(c) ==> c@ == self.source_view().subrange(offset as int, offset + LEN),
            r matches Err(e) ==> e == self.spec_chunk_at_error(offset, LEN),
    ;
}

impl<'a> Source for &'a [u8] {
    open spec fn source_view(&self) -> Seq<u8> {
        (*self)@
    }

    open spec fn spec_slice_at_error(&self, offset: usize, size: usize) -> Error {
        Error::spec_out_of_bounds((offset + size) as usize, (*self)@.len() as usize)
    }

    open spec fn spec_chunk_at_error(&self, offset: usize, size: usize) -> Error {
        if (*self)@.len() < size {
            Error::spec_out_of_bounds(size, (*self)@.len() as usize)
        } else {
            Error::spec_size_mismatch(size, (*self)@.len() as usize)
        }
    }

    fn source_len(&self) -> (n: usize) {
        self.len()
    }

    fn read_slice(&self, size: usize) -> (r: Result<&[u8]>) {
        read_bytes_at(*self, 0, size)
    }

    fn read_slice_at(&self, offset: usize, size: usize) -> (r: Result<&[u8]>) {
        read_bytes_at(*self, offset, size)
    }

    fn read_chunk<const LEN: usize>(&self) -> (r: Result<Chunk<LEN>>) {
        Chunk::<LEN>::from_bytes(*self)
    }

    fn read_chunk_at<const LEN: usize>(&self, offset: usize) -> (r: Result<Chunk<LEN>>) {
        let len = self.len();
        if len < LEN {
            Err(Error::out_of_bounds(LEN, len))
        } else if len - LEN < offset {
            Err(Error::size_mismatch(LEN, len))
        } else {
            Chunk::<LEN>::from_bytes_at(*self, offset)
        }
    }
}

impl<const N: usize> Source for Chunk<N> {
    open spec fn source_view(&self) -> Seq<u8> {
        self@
    }

    open spec fn spec_slice_at_error(&self, offset: usize, size: usize) -> Error {
        Error::spec_out_of_bounds(size, N)
    }

    open spec fn spec_chunk_at_error(&self, offset: usize, size: usize) -> Error {
        Error::spec_out_of_bounds((offset + size) as usize, self@.len() as usize)
    }

    fn source_len(&self) -> (n: usize) {
        self.len()
    }

    fn read_slice(&self, size: usize) -> (r: Result<&[u8]>) {
        read_bytes_at(self.as_bytes(), 0, size)
    }

    fn read_slice_at(&self, offset: usize, size: usize) -> (r: Result<&[u8]>) {
        match read_bytes_at(self.as_bytes(), offset, size) {
            Ok(s) => Ok(s),
            Err(_) => Err(Error::out_of_bounds(size, N)),
        }
    }

    fn read_chunk<const LEN: usize>(&self) -> (r: Result<Chunk<LEN>>) {
        Chunk::<LEN>::from_bytes(self.as_bytes())
    }

    fn read_chunk_at<const LEN: usize>(&self, offset: usize) -> (r: Result<Chunk<LEN>>) {
        Chunk::<LEN>::from_bytes_at(self.as_bytes(), offset)
    }
}

/// Contiguous region of memory containing a borrowed sequence of bytes.
#[derive(Clone, Copy, Debug, PartialEq, Eq, Hash, PartialOrd, Ord)]
pub struct Slice<'data> {
    inner: &'data [u8],
}

impl<'data> View for Slice<'data> {
    type V = Seq<u8>;

    closed spec fn view(&self) -> Seq<u8> {
        self.inner@
    }
}

impl<'data> Slice<'data> {
    /// Creates a new [`Slice`] by wrapping a borrowed slice of bytes.
    pub fn from_slice(slice: &'data [u8]) -> (s: Slice<'data>)
        ensures
            s@ == slice@,
    {
        Slice { inner: slice }
    }

    /// Creates a new [`Slice`] of the bytes of `slice` from `offset` on.
    ///
    /// # Errors
    ///
    /// Returns an out-of-bounds error if `slice.len() < offset`.
    pub fn from_slice_at(slice: &'data [u8], offset: usize) -> (r: Result<Slice<'data>>)
        ensures
            r is Ok <==> offset <= slice@.len(),
            r matches Ok(s) ==> s@ == slice@.subrange(offset as int, slice@.len() as int),
            r matches Err(e) ==> e == Error::spec_out_of_bounds(offset, slice@.len() as usize),
    {
        if slice.len() < offset {
            Err(Error::out_of_bounds(offset, slice.len()))
        } else {
            Ok(Slice::from_slice_at_unchecked(slice, offset))
        }
    }

    /// Creates a new [`Slice`] of the bytes of `slice` from `offset` on, without a
    /// run-time bounds check: the caller must ensure that `offset <= slice.len()`.
    pub fn from_slice_at_unchecked(slice: &'data [u8], offset: usize) -> (s: Slice<'data>)
        requires
            offset <= slice@.len(),
        ensures
            s@ == slice@.subrange(offset as int, slice@.len() as int),
    {
        Slice { inner: slice_subrange(slice, offset, slice.len()) }
    }

    /// Creates a new [`Slice`] of the bytes of `slice` from `offset` on, provided the
    /// slice holds at least `size` bytes from `offset` on.
    ///
    /// # Errors
    ///
    /// Returns an out-of-bounds error if `slice.len() < offset + size`.
    pub fn new_offset_with_size(slice: &'data [u8], offset: usize, size: usize) -> (r: Result<
        Slice<'data>,
    >)
        requires
            offset + size <= usize::MAX,
        ensures
            r is Ok <==> offset + size <= slice@.len(),
            r matches Ok(s) ==> s@ == slice@.subrange(offset as int, slice@.len() as int),
            r matches Err(e) ==> e == Error::spec_out_of_bounds(offset, slice@.len() as usize),
    {
        if slice.len() < offset + size {
            Err(Error::out_of_bounds(offset, slice.len()))
        } else {
            Ok(Slice::from_slice_at_unchecked(slice, offset))
        }
    }

    /// Creates a new [`Slice`] of the `size` bytes of `bytes` that start at `offset`,
    /// without a run-time bounds check: the caller must ensure that `bytes` holds
    /// them.
    pub(crate) fn new_offset_with_size_unchecked(
        bytes: &'data [u8],
        offset: usize,
        size: usize,
    ) -> (s: Slice<'data>)
        requires
            offset + size <= bytes@.len(),
        ensures
            s@ == bytes@.subrange(offset as int, offset + size),
    {
        let len = bytes.len();
        Slice { inner: slice_subrange(bytes, offset, offset + size) }
    }

    /// Constructs a new [`Slice`] over the bytes of a [`Chunk`].
    pub fn from_chunk<const N: usize>(chunk: &'data Chunk<N>) -> (s: Slice<'data>)
        ensures
            s@ == chunk@,
    {
        Slice::from_slice(chunk.as_bytes())
    }

    /// Reads the first `count` bytes of the buffer.
    ///
    /// # Errors
    ///
    /// Returns an out-of-bounds error if `count` is greater than the length of the
    /// buffer.
    pub fn read(&self, count: usize) -> (r: Result<Slice<'data>>)
        ensures
            r is Ok <==> count <= self@.len(),
            r matches Ok(s) ==> s@ == self@.subrange(0, count as int),
            r matches Err(e) ==> e == Error::spec_out_of_bounds(count, self@.len() as usize),
    {
        if self.inner.len() < count {
            Err(Error::out_of_bounds(count, self.inner.len()))
        } else {
            self.subslice(0..count)
        }
    }

    /// Reads `count` bytes from the buffer, starting at `offset`.
    ///
    /// # Errors
    ///
    /// Returns an out-of-bounds error if `self.len() < offset + count`.
    pub fn read_at(&self, offset: usize, count: usize) -> (r: Result<Slice<'data>>)
        requires
            offset + count <= usize::MAX,
        ensures
            r is Ok <==> offset + count <= self@.len(),
            r matches Ok(s) ==> s@ == self@.subrange(offset as int, offset + count),
            r matches Err(e) ==> e == Error::spec_out_of_bounds(
                (offset + count) as usize,
                self@.len() as usize,
            ),
    {
        Span::span_bytes(self.inner, offset, count)
    }

    /// Reads the bytes indexed by `span`, which must cover exactly as many bytes as
    /// the buffer holds.
    ///
    /// # Errors
    ///
    /// Returns a size-mismatch error if `self.len() != span.len()`, and an
    /// out-of-bounds error if the span does not lie within the buffer.
    pub fn read_spanned(&self, span: Span) -> (r: Result<Slice<'data>>)
        ensures
            r is Ok <==> span.spec_len() == self@.len() && span.spec_start() <= span.spec_end()
                <= self@.len(),
            r matches Ok(s) ==> s@ == self@.subrange(
                span.spec_start() as int,
                span.spec_end() as int,
            ),
            r matches Err(e) ==> e == (if span.spec_len() != self@.len() {
                Error::spec_size_mismatch(span.spec_len() as usize, self@.len() as usize)
            } else {
                Error::spec_out_of_bounds(span.spec_end(), self@.len() as usize)
            }),
    {
        if self.inner.len() != span.len() {
            Err(Error::size_mismatch(span.len(), self.inner.len()))
        } else if span.start() > span.end() || span.end() > self.inner.len() {
            Err(Error::out_of_bounds(span.end(), self.inner.len()))
        } else {
            self.subslice(span.as_range())
        }
    }

    /// Returns the `range.end - range.start` bytes that start at `range.start`, or
    /// none if the range is reversed. The caller must ensure that they lie within the
    /// buffer whenever there are no more of them than the buffer holds.
    ///
    /// # Errors
    ///
    /// Returns an out-of-bounds error if the range covers more bytes than the buffer
    /// holds.
    fn subslice(&self, range: core::ops::Range<usize>) -> (r: Result<Slice<'data>>)
        requires
            ({
                let size = if range.end >= range.start {
                    range.end - range.start
                } else {
                    0
                };
                size > self@.len() || range.start + size <= self@.len()
            }),
        ensures
            ({
                let size = if range.end >= range.start {
                    range.end - range.start
                } else {
                    0
                };
                &&& r is Ok <==> size <= self@.len()
                &&& r matches Ok(s) ==> s@ == self@.subrange(
                    range.start as int,
                    range.start + size,
                )
                &&& r matches Err(e) ==> e == Error::spec_out_of_bounds(
                    size as usize,
                    self@.len() as usize,
                )
            }),
    {
        let size = range.end.saturating_sub(range.start);
        if self.inner.len() < size {
            Err(Error::out_of_bounds(size, self.inner.len()))
        } else {
            Ok(Slice::new_offset_with_size_unchecked(self.inner, range.start, size))
        }
    }

    /// Slices the buffer using a range expression, returning the selected bytes.
    pub fn slice<R: SliceRange>(&self, range: R) -> (s: &'data [u8])
        requires
            range.spec_in_bounds(self@.len()),
        ensures
            s@ == self@.subrange(range.spec_start(self@.len()), range.spec_end(self@.len())),
    {
        let (start, end) = range.bounds(self.inner.len());
        slice_subrange(self.inner, start, end)
    }

    /// Returns the inner byte slice comprising the [`Slice`] instance.
    pub fn as_slice(&self) -> (s: &'data [u8])
        ensures
            s@ == self@,
    {
        self.inner
    }

    /// Returns an iterator over the slice, from start to end.
    pub fn iter(&self) -> (it: core::slice::Iter<'data, u8>)
        ensures
            vstd::std_specs::slice::into_iter_elts(it) == self@,
    {
        self.inner.iter()
    }

    /// Returns the number of bytes in the slice.
    pub fn len(&self) -> (n: usize)
        ensures
            n == self@.len(),
    {
        self.inner.len()
    }

    /// Returns `true` if the slice has a length of 0.
    pub fn is_empty(&self) -> (b: bool)
        ensures
            b == (self@.len() == 0),
    {
        self.inner.len() == 0
    }
}

impl<'data> Source for Slice<'data> {
    open spec fn source_view(&self) -> Seq<u8> {
        self@
    }

    open spec fn spec_slice_at_error(&self, offset: usize, size: usize) -> Error {
        Error::spec_out_of_bounds((offset + size) as usize, self@.len() as usize)
    }

    open spec fn spec_chunk_at_error(&self, offset: usize, size: usize) -> Error {
        Error::spec_out_of_bounds((offset + size) as usize, self@.len() as usize)
    }

    fn source_len(&self) -> (n: usize) {
        self.len()
    }

    fn read_slice(&self, size: usize) -> (r: Result<&[u8]>) {
        read_bytes_at(self.inner, 0, size)
    }

    fn read_slice_at(&self, offset: usize, size: usize) -> (r: Result<&[u8]>) {
        read_bytes_at(self.inner, offset, size)
    }

    fn read_chunk<const LEN: usize>(&self) -> (r: Result<Chunk<LEN>>) {
        Chunk::<LEN>::from_bytes(self.inner)
    }

    fn read_chunk_at<const LEN: usize>(&self, offset: usize) -> (r: Result<Chunk<LEN>>) {
        Chunk::<LEN>::from_bytes_at(self.inner, offset)
    }
}

impl<'data> From<&'data [u8]> for Slice<'data> {
    fn from(slice: &'data [u8]) -> (s: Slice<'data>)
        ensures
            s@ == slice@,
    {
        Slice { inner: slice }
    }
}

impl<'data> vstd::std_specs::convert::FromSpecImpl<&'data [u8]> for Slice<'data> {
    open spec fn obeys_from_spec() -> bool {
        true
    }

    closed spec fn from_spec(slice: &'data [u8]) -> Slice<'data> {
        Slice { inner: slice }
    }
}

impl<'data, const N: usize> FromInner<&'data [u8; N]> for Slice<'data> {
    fn from_inner(inner: &'data [u8; N]) -> (s: Slice<'data>)
        ensures
            s@ == inner@,
    {
        Slice::from_slice(inner.as_slice())
    }
}

impl<const N: usize> Source for [u8; N] {
    open spec fn source_view(&self) -> Seq<u8> {
        self@
    }

    open spec fn spec_slice_at_error(&self, offset: usize, size: usize) -> Error {
        Error::spec_out_of_bounds((offset + size) as usize, N)
    }

    open spec fn spec_chunk_at_error(&self, offset: usize, size: usize) -> Error {
        Error::spec_out_of_bounds((offset + size) as usize, N)
    }

    fn source_len(&self) -> (n: usize) {
        N
    }

    fn read_slice(&self, size: usize) -> (r: Result<&[u8]>) {
        read_bytes_at(self.as_slice(), 0, size)
    }

    fn read_slice_at(&self, offset: usize, size: usize) -> (r: Result<&[u8]>) {
        read_bytes_at(self.as_slice(), offset, size)
    }

    fn read_chunk<const LEN: usize>(&self) -> (r: Result<Chunk<LEN>>) {
        Chunk::<LEN>::from_bytes(self.as_slice())
    }

    fn read_chunk_at<const LEN: usize>(&self, offset: usize) -> (r: Result<Chunk<LEN>>) {
        Chunk::<LEN>::from_bytes_at(self.as_slice(), offset)
    }
}

impl<'data> core::ops::Deref for Slice<'data> {
    type Target = [u8];

    fn deref(&self) -> (s: &[u8])
        ensures
            s@ == self@,
    {
        self.as_slice()
    }
}

impl<'data> AsRef<[u8]> for Slice<'data> {
    fn as_ref(&self) -> (s: &[u8])
        ensures
            s@ == self@,
    {
        self.as_slice()
    }
}

} // verus!
