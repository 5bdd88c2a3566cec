//! Utilities that split byte slices into fixed size chunks and the bytes that remain.
use vstd::prelude::*;
use vstd::slice::slice_subrange;

use crate::chunk::Chunk;
pub use crate::shims::{split_at_unchecked, to_byte_array_unchecked};
use crate::span::Span;

pub use crate::shims::{AsInner, AsInnerMut, FromInner, FromInnerMut, FromInnerRef, IntoInner};

verus! {

/// Converts the `SIZE` bytes of `bytes` that start at `offset` into an array.
///
/// Returns `None` if `bytes` holds fewer than `offset + SIZE` bytes.
pub fn to_byte_array<const SIZE: usize>(bytes: &[u8], offset: usize) -> (r: Option<[u8; SIZE]>)
    ensures
        r is None <==> bytes@.len() < offset + SIZE,
        r matches Some(a) ==> a@ == bytes@.subrange(offset as int, offset + SIZE),
{
    crate::shims::to_byte_array::<SIZE>(bytes, offset)
}

/// Splits the first `N` bytes of `bytes` off as a [`Chunk`], and returns it with the
/// bytes that follow. Returns `None` if `bytes.len() < N`.
pub fn split_first_chunk<const N: usize>(bytes: &[u8]) -> (r: Option<(Chunk<N>, &[u8])>)
    ensures
        r is Some <==> N <= bytes@.len(),
        r matches Some((c, tail)) ==> c@ == bytes@.subrange(0, N as int) && tail@
            == bytes@.subrange(N as int, bytes@.len() as int),
{
    if bytes.len() < N {
        None
    } else {
        let (first, tail) = split_at_unchecked(bytes, N);
        let array = to_byte_array_unchecked::<N>(first, 0);
        assert(first@.subrange(0, N as int) =~= first@);
        Some((Chunk::from_array(array), tail))
    }
}

/// Splits off the `N` bytes of `bytes` that start at `offset` as a [`Chunk`], and
/// returns it with the bytes that follow it. Returns `None` if
/// `bytes.len() < offset + N`.
pub fn split_chunk_at<const N: usize>(bytes: &[u8], offset: usize) -> (r: Option<
    (Chunk<N>, &[u8]),
>)
    requires
        offset + N <= usize::MAX,
    ensures
        r is Some <==> offset + N <= bytes@.len(),
        r matches Some((c, tail)) ==> c@ == bytes@.subrange(offset as int, offset + N) && tail@
            == bytes@.subrange(offset + N, bytes@.len() as int),
{
    let span = Span::new(offset, N);
    let len = bytes.len();
    if len < span.end() {
        None
    } else {
        let (_, rest) = split_at_unchecked(bytes, span.start());
        let (first, tail) = split_at_unchecked(rest, N);
        let array = to_byte_array_unchecked::<N>(first, 0);
        assert(first@.subrange(0, N as int) =~= first@);
        Some((Chunk::from_array(array), tail))
    }
}

} // verus!
