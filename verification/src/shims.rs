//! Helpers that convert between byte slices, arrays and chunks.
use vstd::prelude::*;
use vstd::slice::slice_subrange;

use crate::chunk::Chunk;
use crate::contiguous::Bytes;
use crate::error::{Error, Result};

verus! {

/// Converts the `N` bytes of `bytes` that start at `offset` into an array.
///
/// Returns `None` if `bytes` holds fewer than `offset + N` bytes.
pub fn to_byte_array<const N: usize>(bytes: &[u8], offset: usize) -> (r: Option<[u8; N]>)
    ensures
        r is None <==> bytes@.len() < offset + N,
        r matches Some(a) ==> a@ == bytes@.subrange(offset as int, offset + N),
{
    let len = bytes.len();
    if offset > len || len - offset < N {
        None
    } else {
        Some(to_byte_array_unchecked::<N>(bytes, offset))
    }
}

/// Copies the `N` bytes of `bytes` that start at `offset` into an array, without a
/// run-time bounds check: the caller must ensure that `bytes` holds them.
pub fn to_byte_array_unchecked<const N: usize>(bytes: &[u8], offset: usize) -> (a: [u8; N])
    requires
        offset + N <= bytes@.len(),
    ensures
        a@ == bytes@.subrange(offset as int, offset + N),
{
    let (_, tail) = split_at_unchecked(bytes, offset);
    let (head, _) = split_at_unchecked(tail, N);
    let mut array = [0u8; N];
    let mut i: usize = 0;
    while i < N
        invariant
            i <= N,
            head@.len() == N,
            head@ == bytes@.subrange(offset as int, offset + N),
            forall|j: int| 0 <= j < i ==> array@[j] == head@[j],
        decreases N - i,
    {
        array[i] = head[i];
        i = i + 1;
    }
    assert(array@ =~= head@);
    array
}

/// Splits a slice of bytes in two at `offset`, returning the bytes before it and the
/// bytes from it on. The caller must ensure that `offset <= bytes.len()`.
pub fn split_at_unchecked(bytes: &[u8], offset: usize) -> (r: (&[u8], &[u8]))
    requires
        offset <= bytes@.len(),
    ensures
        r.0@ == bytes@.subrange(0, offset as int),
        r.1@ == bytes@.subrange(offset as int, bytes@.len() as int),
{
    let len = bytes.len();
    (slice_subrange(bytes, 0, offset), slice_subrange(bytes, offset, len))
}

/// Returns the first `size` bytes of `bytes`, as a [`Bytes`] value.
///
/// # Errors
///
/// Returns an out-of-bounds error if `bytes.len() < size`.
pub fn take_slice(bytes: &[u8], size: usize) -> (r: Result<Bytes<'_>>)
    ensures
        r is Ok <==> size <= bytes@.len(),
        r matches Ok(b) ==> b@ == bytes@.subrange(0, size as int),
        r matches Err(e) ==> e == Error::spec_out_of_bounds(size, bytes@.len() as usize),
{
    Bytes::new(bytes).read(size)
}

/// Returns the first `N` bytes of `bytes` as a [`Chunk`].
///
/// # Errors
///
/// Returns an out-of-bounds error if `bytes.len() < N`.
pub fn first_chunk<const N: usize>(bytes: &[u8]) -> (r: Result<Chunk<N>>)
    ensures
        r is Ok <==> N <= bytes@.len(),
        r matches Ok(c) ==> c@ == bytes@.subrange(0, N as int),
        r matches Err(e) ==> e == Error::spec_out_of_bounds(N, bytes@.len() as usize),
{
    Chunk::<N>::from_bytes(bytes)
}

/// Returns the first `N` bytes of `bytes` as a [`Chunk`], provided `bytes` holds at
/// least `N + offset` bytes; `offset` only raises the length that is required.
///
/// # Errors
///
/// Returns an out-of-bounds error if `bytes.len() < N + offset`.
pub fn read_chunk_at<const N: usize>(bytes: &[u8], offset: usize) -> (r: Result<Chunk<N>>)
    requires
        offset + N <= usize::MAX,
    ensures
        r is Ok <==> offset + N <= bytes@.len(),
        r matches Ok(c) ==> c@ == bytes@.subrange(0, N as int),
        r matches Err(e) ==> e == Error::spec_out_of_bounds(N, bytes@.len() as usize),
{
    if bytes.len() < N + offset {
        Err(Error::out_of_bounds(N, bytes.len()))
    } else {
        Chunk::<N>::from_bytes(bytes)
    }
}

/// Splits off the `N` bytes of `source` that start at `offset` as a [`Chunk`], and
/// returns it with the bytes that follow it.
///
/// # Errors
///
/// Returns an out-of-bounds error if `source.len() < offset + N`.
pub fn split_chunk_at<const N: usize>(source: &[u8], offset: usize) -> (r: Result<
    (Chunk<N>, &[u8]),
>)
    requires
        offset + N <= usize::MAX,
    ensures
        r is Ok <==> offset + N <= source@.len(),
        r matches Ok((c, tail)) ==> c@ == source@.subrange(offset as int, offset + N) && tail@
            == source@.subrange(offset + N, source@.len() as int),
        r matches Err(e) ==> e == Error::spec_out_of_bounds(N, source@.len() as usize),
{
    let len = source.len();
    if len < offset + N {
        Err(Error::out_of_bounds(N, len))
    } else {
        let (_, bytes) = split_at_unchecked(source, offset);
        let (first, tail) = split_at_unchecked(bytes, N);
        let array = to_byte_array_unchecked::<N>(first, 0);
        assert(first@.subrange(0, N as int) =~= first@);
        Ok((Chunk::from_array(array), tail))
    }
}

/// Returns the smaller of two values.
pub fn const_min_value(a: usize, b: usize) -> (m: usize)
    ensures
        m == (if a < b {
            a
        } else {
            b
        }),
{
    if a < b {
        a
    } else {
        b
    }
}

/// Returns the larger of two values.
pub fn const_max_value(a: usize, b: usize) -> (m: usize)
    ensures
        m == (if a > b {
            a
        } else {
            b
        }),
{
    if a > b {
        a
    } else {
        b
    }
}

/// Consumes a wrapper and returns the value it wraps.
pub trait IntoInner<T>: Sized {
    /// Returns the wrapped value.
    fn into_inner(self) -> T;
}

/// Borrows the value a wrapper wraps.
pub trait AsInner<T: ?Sized> {
    /// Returns a reference to the wrapped value.
    fn as_inner(&self) -> &T;
}

/// Mutably borrows the value a wrapper wraps.
pub trait AsInnerMut<T: ?Sized> {
    /// Returns a mutable reference to the wrapped value.
    fn as_inner_mut(&mut self) -> &mut T;
}

/// Builds a wrapper around a value.
pub trait FromInner<T>: Sized {
    /// Wraps `inner`.
    fn from_inner(inner: T) -> Self;
}

/// Views a mutable reference to a value as a mutable reference to its wrapper.
pub trait FromInnerMut<T: ?Sized> {
    /// Returns `inner`, viewed as its wrapper.
    fn from_inner_mut(inner: &mut T) -> &mut Self;
}

/// Views a reference to a value as a reference to its wrapper.
pub trait FromInnerRef<T: ?Sized> {
    /// Returns `inner`, viewed as its wrapper.
    fn from_inner_ref(inner: &T) -> &Self;
}

} // verus!
