//! A newtype wrapper for borrowed byte slices, with bounds-checked reads.
use vstd::prelude::*;
use vstd::slice::slice_subrange;

use crate::range::SliceRange;
use crate::shims::{AsInner, FromInner, IntoInner};

verus! {

/// Holds when `pos` is where a scan of `s` with `predicate` stops: every byte before
/// `pos` may make `predicate` return `false`, and the byte at `pos`, if any, may make it
/// return `true`.
pub open spec fn scan_stops_at<F: Fn(&u8) -> bool>(s: Seq<u8>, predicate: F, pos: int) -> bool {
    &&& 0 <= pos <= s.len()
    &&& forall|k: int| 0 <= k < pos ==> predicate.ensures((&s[k],), false)
    &&& pos < s.len() ==> predicate.ensures((&s[pos],), true)
}

/// Returns the index of the first byte of `bytes` for which `predicate` returns
/// `true`, or the length of `bytes` if there is none.
pub fn scan_until<F: Fn(&u8) -> bool>(bytes: &[u8], predicate: &F) -> (pos: usize)
    requires
        forall|b: u8| predicate.requires((&b,)),
    ensures
        scan_stops_at(bytes@, *predicate, pos as int),
{
    let len = bytes.len();
    let mut pos: usize = 0;
    while pos < len
        invariant
            len == bytes@.len(),
            pos <= len,
            forall|b: u8| predicate.requires((&b,)),
            forall|k: int| 0 <= k < pos ==> predicate.ensures((&bytes@[k],), false),
        ensures
            pos <= len,
            forall|k: int| 0 <= k < pos ==> predicate.ensures((&bytes@[k],), false),
            pos < len ==> predicate.ensures((&bytes@[pos as int],), true),
        decreases len - pos,
    {
        let b: &u8 = &bytes[pos];
        let hit = predicate(b);
        if hit {
            break;
        }
        pos = pos + 1;
    }
    pos
}

/// Wrapper type for a borrowed slice of bytes.
#[derive(Clone, Copy, Debug, Default, PartialEq, Eq, Hash, PartialOrd, Ord)]
pub struct Bytes<'src> {
    inner: &'src [u8],
}

impl<'src> View for Bytes<'src> {
    type V = Seq<u8>;

    closed spec fn view(&self) -> Seq<u8> {
        self.inner@
    }
}

impl<'src> Bytes<'src> {
    /// Creates a [`Bytes`] value by wrapping a borrowed slice of bytes.
    pub fn new(bytes: &'src [u8]) -> (b: Self)
        ensures
            b@ == bytes@,
    {
        Bytes { inner: bytes }
    }

    /// Creates a new [`Bytes`] value over the bytes of `bytes` from `offset` on.
    ///
    /// Returns `None` if `bytes.len() < offset`, which would make the cursor overrun
    /// the buffer. The slice may not be empty.
    pub fn new_offset(bytes: &'src [u8], offset: usize) -> (r: Option<Self>)
        requires
            bytes@.len() > 0 || offset > 0,
        ensures
            r is Some <==> offset <= bytes@.len(),
            r matches Some(b) ==> b@ == bytes@.subrange(offset as int, bytes@.len() as int),
    {
        if bytes.len() < offset {
            None
        } else {
            Some(Bytes::new_offset_unchecked(bytes, offset))
        }
    }

    /// Creates a new [`Bytes`] value over the bytes of `bytes` from `offset` on,
    /// without a run-time bounds check: the caller must ensure that
    /// `offset <= bytes.len()`, and the slice may not be empty.
    pub fn new_offset_unchecked(bytes: &'src [u8], offset: usize) -> (b: Self)
        requires
            bytes@.len() > 0,
            offset <= bytes@.len(),
        ensures
            b@ == bytes@.subrange(offset as int, bytes@.len() as int),
    {
        Bytes { inner: slice_subrange(bytes, offset, bytes.len()) }
    }

    /// Slices the buffer using a range expression, returning the selected bytes.
    pub fn slice<R: SliceRange>(&self, range: R) -> (s: &'src [u8])
        requires
            range.spec_in_bounds(self@.len()),
        ensures
            s@ == self@.subrange(range.spec_start(self@.len()), range.spec_end(self@.len())),
    {
        let (start, end) = range.bounds(self.inner.len());
        slice_subrange(self.inner, start, end)
    }

    /// Returns the inner byte slice comprising the [`Bytes`] instance.
    pub fn as_slice(&self) -> (s: &'src [u8])
        ensures
            s@ == self@,
    {
        self.inner
    }

    /// Returns an iterator over the bytes, from start to end.
    pub fn iter(&self) -> (it: core::slice::Iter<'src, u8>)
        ensures
            vstd::std_specs::slice::into_iter_elts(it) == self@,
    {
        self.inner.iter()
    }

    /// Returns the number of bytes in the slice.
    pub fn len(&self) -> (n: usize)
        ensures
            n == self@.len(),
    {
        self.inner.len()
    }

    /// Returns `true` if the slice has a length of 0.
    pub fn is_empty(&self) -> (b: bool)
        ensures
            b == (self@.len() == 0),
    {
        self.inner.len() == 0
    }

    /// Reads the first `count` bytes of the buffer.
    ///
    /// Returns `None` if `count` is greater than the length of the buffer.
    pub fn read(&self, count: usize) -> (r: Option<&'src [u8]>)
        ensures
            r is Some <==> count <= self@.len(),
            r matches Some(s) ==> s@ == self@.subrange(0, count as int),
    {
        if self.inner.len() < count {
            None
        } else {
            Some(slice_subrange(self.inner, 0, count))
        }
    }

    /// Reads `count` bytes from the buffer, starting at `offset`.
    ///
    /// Returns `None` if `self.len() < offset + count`.
    pub fn read_at(&self, offset: usize, count: usize) -> (r: Option<&'src [u8]>)
        requires
            offset + count <= usize::MAX,
        ensures
            r is Some <==> offset + count <= self@.len(),
            r matches Some(s) ==> s@ == self@.subrange(offset as int, offset + count),
    {
        let (start, end) = (offset, offset + count);
        if end > self.len() {
            None
        } else {
            Some(slice_subrange(self.inner, start, end))
        }
    }

    /// Reads bytes from the front of the buffer until `predicate` holds of one.
    ///
    /// Returns `None` if that leaves no bytes, that is, if `predicate` holds of the
    /// first byte or the buffer is empty.
    pub fn read_until<F: Fn(&u8) -> bool>(&self, predicate: F) -> (r: Option<&'src [u8]>)
        requires
            forall|b: u8| predicate.requires((&b,)),
        ensures
            r matches Some(s) ==> s@.len() > 0 && s@ == self@.subrange(0, s@.len() as int)
                && scan_stops_at(self@, predicate, s@.len() as int),
            r is None ==> scan_stops_at(self@, predicate, 0),
    {
        let pos = scan_until(self.inner, &predicate);
        if pos == 0 {
            None
        } else {
            Some(slice_subrange(self.inner, 0, pos))
        }
    }
}

impl<'src> From<&'src [u8]> for Bytes<'src> {
    fn from(value: &'src [u8]) -> (b: Bytes<'src>)
        ensures
            b@ == value@,
    {
        Bytes { inner: value }
    }
}

impl<'src> vstd::std_specs::convert::FromSpecImpl<&'src [u8]> for Bytes<'src> {
    open spec fn obeys_from_spec() -> bool {
        true
    }

    closed spec fn from_spec(value: &'src [u8]) -> Bytes<'src> {
        Bytes { inner: value }
    }
}

impl<'src> AsInner<[u8]> for Bytes<'src> {
    fn as_inner(&self) -> (s: &[u8])
        ensures
            s@ == self@,
    {
        self.inner
    }
}

impl<'src, const N: usize> FromInner<&'src [u8; N]> for Bytes<'src> {
    fn from_inner(inner: &'src [u8; N]) -> (b: Bytes<'src>)
        ensures
            b@ == inner@,
    {
        Bytes::new(inner.as_slice())
    }
}

impl<'src> IntoInner<&'src [u8]> for Bytes<'src> {
    fn into_inner(self) -> (s: &'src [u8])
        ensures
            s@ == self@,
    {
        self.inner
    }
}

impl<'src> core::ops::Deref for Bytes<'src> {
    type Target = [u8];

    fn deref(&self) -> (s: &[u8])
        ensures
            s@ == self@,
    {
        self.as_slice()
    }
}

impl<'src> AsRef<[u8]> for Bytes<'src> {
    fn as_ref(&self) -> (s: &[u8])
        ensures
            s@ == self@,
    {
        self.as_slice()
    }
}

} // verus!
