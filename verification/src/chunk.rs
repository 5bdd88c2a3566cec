//! A fixed-size array of bytes, or "chunk", whose size is known at compile time.
use vstd::prelude::*;

use crate::contiguous::Bytes;
use crate::error::{Error, Result};
use crate::source::Slice;

verus! {

/// A fixed-size array of bytes, or "chunk": a newtype wrapper around `[u8; N]`.
#[derive(Clone, Copy, Debug, PartialEq, Eq, Hash, PartialOrd, Ord)]
pub struct Chunk<const N: usize> {
    /// Array of bytes with length `N`.
    inner: [u8; N],
}

impl<const N: usize> View for Chunk<N> {
    type V = Seq<u8>;

    closed spec fn view(&self) -> Seq<u8> {
        self.inner@
    }
}

/// Calls `core::str::from_utf8`, which the standard library documents to succeed
/// exactly when `bytes` is valid UTF-8 and then to return a string over those same
/// bytes; the contract states both halves of that.
#[verifier::external_body]
fn str_from_utf8(bytes: &[u8]) -> (r: Option<&str>)
    ensures
        r is Some <==> vstd::utf8::valid_utf8(bytes@),
        r matches Some(s) ==> s@ == vstd::utf8::decode_utf8(bytes@) && vstd::string::StringSliceAdditionalSpecFns::spec_bytes(s) == bytes@,
{
    match core::str::from_utf8(bytes) {
        Ok(s) => Some(s),
        Err(_) => None,
    }
}

/// Copies the `N` bytes of `bytes` that start at `offset` into an array.
fn copy_array<const N: usize>(bytes: &[u8], offset: usize) -> (a: [u8; N])
    requires
        offset + N <= bytes@.len(),
    ensures
        a@ == bytes@.subrange(offset as int, offset + N),
{
    let mut inner = [0u8; N];
    let mut i: usize = 0;
    let len = bytes.len();
    while i < N
        invariant
            i <= N,
            len == bytes@.len(),
            offset + N <= bytes@.len(),
            inner@.len() == N,
            forall|k: int| 0 <= k < i ==> inner@[k] == bytes@[offset + k],
        decreases N - i,
    {
        inner[i] = bytes[offset + i];
        i = i + 1;
    }
    assert(inner@ =~= bytes@.subrange(offset as int, offset + N));
    inner
}

impl<const N: usize> Chunk<N> {
    /// Creates a new [`Chunk`] from a non-empty array of bytes with length `N`.
    pub fn new(chunk: [u8; N]) -> (c: Self)
        requires
            N > 0,
        ensures
            c@ == chunk@,
    {
        Self { inner: chunk }
    }

    /// Creates a new [`Chunk`] from an array of bytes with length `N`.
    pub fn from_array(bytes: [u8; N]) -> (c: Self)
        ensures
            c@ == bytes@,
    {
        Chunk { inner: bytes }
    }

    /// Creates a new [`Chunk`] from the first `N` bytes of a slice.
    ///
    /// # Errors
    ///
    /// Returns an out-of-bounds error if `bytes.len() < N`.
    pub fn from_bytes(bytes: &[u8]) -> (r: Result<Chunk<N>>)
        ensures
            r is Ok <==> bytes@.len() >= N,
            r matches Ok(c) ==> c@ == bytes@.subrange(0, N as int),
            r matches Err(e) ==> e == Error::spec_out_of_bounds(N, bytes@.len() as usize),
    {
        if bytes.len() < N {
            Err(Error::out_of_bounds(N, bytes.len()))
        } else {
            Ok(Chunk { inner: copy_array::<N>(bytes, 0) })
        }
    }

    /// Creates a new [`Chunk`] from the `N` bytes of a slice that start at `offset`.
    ///
    /// # Errors
    ///
    /// Returns an out-of-bounds error if `bytes.len() < offset + N`.
    pub fn from_bytes_at(bytes: &[u8], offset: usize) -> (r: Result<Chunk<N>>)
        requires
            offset + N <= usize::MAX,
        ensures
            r is Ok <==> bytes@.len() >= offset + N,
            r matches Ok(c) ==> c@ == bytes@.subrange(offset as int, offset + N),
            r matches Err(e) ==> e == Error::spec_out_of_bounds(
                (offset + N) as usize,
                bytes@.len() as usize,
            ),
    {
        if bytes.len() < offset + N {
            Err(Error::out_of_bounds(offset + N, bytes.len()))
        } else {
            Ok(Chunk { inner: copy_array::<N>(bytes, offset) })
        }
    }

    /// Returns the number of bytes in the chunk.
    pub fn len(&self) -> (n: usize)
        ensures
            n == N,
            n == self@.len(),
    {
        N
    }

    /// Returns `true` if the chunk has a length of 0.
    pub fn is_empty(&self) -> (b: bool)
        ensures
            b == (N == 0),
    {
        N == 0
    }

    /// Get the array represented by this chunk as a `[u8; N]`.
    pub fn into_array(self) -> (a: [u8; N])
        ensures
            a@ == self@,
    {
        self.inner
    }

    /// Returns a chunk of `LEN` zero bytes.
    pub fn empty<const LEN: usize>() -> (c: Chunk<LEN>)
        requires
            LEN > 0,
        ensures
            c@ == Seq::new(LEN as nat, |i: int| 0u8),
    {
        let region = [0u8; LEN];
        assert(region@ =~= Seq::new(LEN as nat, |i: int| 0u8));
        Chunk::<LEN>::new(region)
    }

    /// Returns this chunk as a slice of bytes.
    pub fn as_bytes(&self) -> (s: &[u8])
        ensures
            s@ == self@,
    {
        vstd::array::array_as_slice(&self.inner)
    }

    /// Converts this chunk of bytes into a UTF-8 encoded `&str` slice.
    ///
    /// Returns `None` if the bytes are not valid UTF-8.
    pub fn as_str(&self) -> (r: Option<&str>)
        ensures
            r is Some <==> vstd::utf8::valid_utf8(self@),
            r matches Some(s) ==> s@ == vstd::utf8::decode_utf8(self@) && vstd::string::StringSliceAdditionalSpecFns::spec_bytes(s) == self@,
    {
        str_from_utf8(self.as_bytes())
    }
}

impl<const N: usize> From<[u8; N]> for Chunk<N> {
    fn from(array: [u8; N]) -> (c: Self)
        ensures
            c@ == array@,
            c == Chunk::spec_from_array(array),
    {
        Chunk { inner: array }
    }
}

impl<const N: usize> Chunk<N> {
    /// The chunk holding the bytes of `array`.
    pub closed spec fn spec_from_array(array: [u8; N]) -> Chunk<N> {
        Chunk { inner: array }
    }
}

impl<const N: usize> vstd::std_specs::convert::FromSpecImpl<[u8; N]> for Chunk<N> {
    open spec fn obeys_from_spec() -> bool {
        true
    }

    closed spec fn from_spec(array: [u8; N]) -> Chunk<N> {
        Chunk { inner: array }
    }
}

/// Converts a fixed size array of bytes into another representation of those bytes.
pub trait ByteArray<const N: usize>: Sized {
    /// The bytes that the value holds.
    spec fn spec_byte_array(&self) -> Seq<u8>;

    /// Converts an array of bytes with length `N` to `Self`.
    fn from_byte_array(bytes: [u8; N]) -> (r: Self)
        ensures
            r.spec_byte_array() == bytes@,
    ;
}

impl<const N: usize> ByteArray<N> for [u8; N] {
    open spec fn spec_byte_array(&self) -> Seq<u8> {
        self@
    }

    fn from_byte_array(bytes: [u8; N]) -> (r: Self) {
        bytes
    }
}

impl<const N: usize> ByteArray<N> for Chunk<N> {
    open spec fn spec_byte_array(&self) -> Seq<u8> {
        self@
    }

    fn from_byte_array(array: [u8; N]) -> (r: Self) {
        Chunk::from_array(array)
    }
}

/// A packed chunk of `N` bytes.
#[derive(Clone, Copy, Debug, PartialEq, Eq, Hash, PartialOrd, Ord)]
pub struct ByteChunk<const N: usize> {
    chunk: [u8; N],
}

impl<const N: usize> View for ByteChunk<N> {
    type V = Seq<u8>;

    closed spec fn view(&self) -> Seq<u8> {
        self.chunk@
    }
}

impl<const N: usize> ByteChunk<N> {
    /// Creates a [`ByteChunk`] holding the bytes of `chunk`.
    pub fn new(chunk: [u8; N]) -> (c: Self)
        ensures
            c@ == chunk@,
    {
        Self { chunk }
    }

    /// Returns the bytes of the chunk as a slice.
    pub fn as_slice(&self) -> (s: &[u8])
        ensures
            s@ == self@,
    {
        self.chunk.as_slice()
    }

    /// Returns the bytes of the chunk as an array.
    pub fn into_bytes(self) -> (a: [u8; N])
        ensures
            a@ == self@,
    {
        self.chunk
    }
}

impl<const N: usize> Chunk<N> {
    /// The outcome of reading a chunk from the front of `bytes`: an out-of-bounds
    /// error if it holds fewer than `N` bytes, and otherwise the chunk of its first
    /// `N` bytes.
    pub closed spec fn spec_read(bytes: Seq<u8>) -> Result<Chunk<N>> {
        if bytes.len() < N {
            Err(Error::spec_out_of_bounds(N, bytes.len() as usize))
        } else {
            Ok(choose|c: Chunk<N>| c@ == bytes.subrange(0, N as int))
        }
    }

    /// What [`Chunk::from_bytes`] returns is exactly the outcome of reading a chunk
    /// from the front of the bytes.
    pub proof fn lemma_from_bytes_is_read(bytes: Seq<u8>, r: Result<Chunk<N>>)
        requires
            r is Ok <==> bytes.len() >= N,
            r matches Ok(c) ==> c@ == bytes.subrange(0, N as int),
            r matches Err(e) ==> e == Error::spec_out_of_bounds(N, bytes.len() as usize),
        ensures
            r == Chunk::<N>::spec_read(bytes),
    {
        if let Ok(c) = r {
            let chosen = choose|x: Chunk<N>| x@ == bytes.subrange(0, N as int);
            assert(c@ == bytes.subrange(0, N as int));
            assert(chosen.inner =~= c.inner);
        }
    }
}

impl<'data, const N: usize> TryFrom<&'data [u8]> for Chunk<N> {
    type Error = Error;

    fn try_from(bytes: &'data [u8]) -> (r: Result<Chunk<N>>)
        ensures
            r == Chunk::<N>::spec_read(bytes@),
    {
        let r = Chunk::<N>::from_bytes(bytes);
        proof {
            Chunk::<N>::lemma_from_bytes_is_read(bytes@, r);
        }
        r
    }
}

impl<'data, const N: usize> vstd::std_specs::convert::TryFromSpecImpl<&'data [u8]> for Chunk<N> {
    open spec fn obeys_try_from_spec() -> bool {
        true
    }

    open spec fn try_from_spec(bytes: &'data [u8]) -> Result<Chunk<N>> {
        Chunk::<N>::spec_read(bytes@)
    }
}

impl<'data, const N: usize> From<Slice<'data>> for Result<Chunk<N>> {
    fn from(bytes: Slice<'data>) -> (r: Result<Chunk<N>>)
        ensures
            r == Chunk::<N>::spec_read(bytes@),
    {
        let r = Chunk::<N>::from_bytes(bytes.as_slice());
        proof {
            Chunk::<N>::lemma_from_bytes_is_read(bytes@, r);
        }
        r
    }
}

impl<'data, const N: usize> vstd::std_specs::convert::FromSpecImpl<Slice<'data>> for Result<Chunk<N>> {
    open spec fn obeys_from_spec() -> bool {
        true
    }

    open spec fn from_spec(bytes: Slice<'data>) -> Result<Chunk<N>> {
        Chunk::<N>::spec_read(bytes@)
    }
}

impl<'a, const N: usize> From<Bytes<'a>> for Result<Chunk<N>> {
    fn from(bytes: Bytes<'a>) -> (r: Result<Chunk<N>>)
        ensures
            r == Chunk::<N>::spec_read(bytes@),
    {
        let r = Chunk::<N>::from_bytes(bytes.as_slice());
        proof {
            Chunk::<N>::lemma_from_bytes_is_read(bytes@, r);
        }
        r
    }
}

impl<'a, const N: usize> vstd::std_specs::convert::FromSpecImpl<Bytes<'a>> for Result<Chunk<N>> {
    open spec fn obeys_from_spec() -> bool {
        true
    }

    open spec fn from_spec(bytes: Bytes<'a>) -> Result<Chunk<N>> {
        Chunk::<N>::spec_read(bytes@)
    }
}

impl<'a, const N: usize> From<Bytes<'a>> for Option<Chunk<N>> {
    fn from(bytes: Bytes<'a>) -> (r: Option<Chunk<N>>)
        ensures
            r == Chunk::<N>::spec_read(bytes@).ok(),
    {
        let r = crate::shims::first_chunk::<N>(bytes.as_slice());
        proof {
            Chunk::<N>::lemma_from_bytes_is_read(bytes@, r);
        }
        r.ok()
    }
}

impl<'a, const N: usize> vstd::std_specs::convert::FromSpecImpl<Bytes<'a>> for Option<Chunk<N>> {
    open spec fn obeys_from_spec() -> bool {
        true
    }

    open spec fn from_spec(bytes: Bytes<'a>) -> Option<Chunk<N>> {
        Chunk::<N>::spec_read(bytes@).ok()
    }
}

impl<const N: usize> core::ops::Deref for Chunk<N> {
    type Target = [u8];

    fn deref(&self) -> (s: &[u8])
        ensures
            s@ == self@,
    {
        self.as_bytes()
    }
}

impl<const N: usize> AsRef<[u8]> for Chunk<N> {
    fn as_ref(&self) -> (s: &[u8])
        ensures
            s@ == self@,
    {
        self.as_bytes()
    }
}

} // verus!
