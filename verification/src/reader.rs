//! A stateful parser that reads a byte slice from front to back.
use vstd::prelude::*;
use vstd::slice::slice_subrange;

use crate::abi::{Abi, Zeroable};
use crate::bytes::Bytes;
use crate::codec::Codec;
use crate::cursor::BytePos;
use crate::decode::Decode;

verus! {

/// Stateful parser for traversing a byte slice: a buffer and a cursor position in it.
#[derive(Clone, Copy, Debug)]
pub struct Parser<'source> {
    buf: Bytes<'source>,
    pos: BytePos,
}

impl<'source> Parser<'source> {
    /// The bytes of the buffer.
    pub closed spec fn spec_bytes(self) -> Seq<u8> {
        self.buf@
    }

    /// The cursor position.
    pub closed spec fn spec_pos(self) -> usize {
        self.pos.spec_get()
    }

    /// Creates a new [`Parser`] over a byte slice, with its cursor at the start.
    pub fn new(bytes: &'source [u8]) -> (p: Self)
        ensures
            p.spec_bytes() == bytes@,
            p.spec_pos() == 0,
    {
        Parser { buf: Bytes::new(bytes), pos: BytePos::new(0) }
    }

    /// Creates a new [`Parser`] over a byte slice, with its cursor at `offset`.
    ///
    /// Returns `None` if `offset > bytes.len()`.
    pub fn new_at_offset(bytes: &'source [u8], offset: usize) -> (r: Option<Parser<'source>>)
        ensures
            r is Some <==> offset <= bytes@.len(),
            r matches Some(p) ==> p.spec_bytes() == bytes@ && p.spec_pos() == offset,
    {
        if offset > bytes.len() {
            None
        } else {
            Some(Parser { buf: Bytes::new(bytes), pos: BytePos::new(offset) })
        }
    }

    /// Advances the cursor by `count` bytes.
    pub fn advance(&mut self, count: usize)
        requires
            old(self).spec_pos() + count <= usize::MAX,
        ensures
            final(self).spec_bytes() == old(self).spec_bytes(),
            final(self).spec_pos() == old(self).spec_pos() + count,
    {
        self.pos.advance(count);
    }

    /// Returns the bytes of the buffer from the cursor on.
    pub fn chunk(&self) -> (s: &'source [u8])
        requires
            self.spec_pos() <= self.spec_bytes().len(),
        ensures
            s@ == self.spec_bytes().subrange(self.spec_pos() as int, self.spec_bytes().len() as int),
    {
        let bytes = self.buf.as_slice();
        slice_subrange(bytes, self.pos.get(), bytes.len())
    }

    /// Returns the buffer this parser reads.
    pub fn bytes(&self) -> (b: Bytes<'source>)
        ensures
            b@ == self.spec_bytes(),
    {
        self.buf
    }

    /// Returns the cursor position.
    pub fn position(&self) -> (p: BytePos)
        ensures
            p.spec_get() == self.spec_pos(),
    {
        self.pos
    }

    /// Returns the number of bytes left in the buffer from the cursor on.
    pub fn remaining(&self) -> (n: usize)
        ensures
            n == (if self.spec_pos() <= self.spec_bytes().len() {
                self.spec_bytes().len() - self.spec_pos()
            } else {
                0
            }),
    {
        self.len().saturating_sub(self.pos.get())
    }

    /// Returns the total length of the buffer.
    pub fn len(&self) -> (n: usize)
        ensures
            n == self.spec_bytes().len(),
    {
        self.buf.len()
    }

    /// Returns `true` if the buffer is empty.
    pub fn is_empty(&self) -> (b: bool)
        ensures
            b == (self.spec_bytes().len() == 0),
    {
        self.len() == 0
    }

    /// Returns the bytes `range` selects among those from the cursor on, or `None` if
    /// the range is reversed or reaches past them.
    pub fn slice(&self, range: core::ops::Range<usize>) -> (r: Option<&'source [u8]>)
        requires
            self.spec_pos() <= self.spec_bytes().len(),
        ensures
            r is Some <==> range.start <= range.end && range.end <= self.spec_bytes().len()
                - self.spec_pos(),
            r matches Some(s) ==> s@ == self.spec_bytes().subrange(
                self.spec_pos() + range.start,
                self.spec_pos() + range.end,
            ),
    {
        let len = self.len();
        let rest = self.chunk();
        if range.start <= range.end && range.end <= rest.len() {
            Some(slice_subrange(rest, range.start, range.end))
        } else {
            None
        }
    }
}

impl<'a> Parser<'a> {
    /// Reads a value of type `T` from the bytes at the cursor, in native (little
    /// endian) byte order, and advances the cursor past it.
    ///
    /// Returns `None`, and leaves the cursor where it was, if fewer than
    /// `T`'s size bytes remain or the value cannot be decoded from them.
    pub fn read<T: Decode + Abi + Zeroable>(&mut self) -> (r: Option<T>)
        requires
            T::spec_size() <= usize::MAX,
            T::spec_size() > 0 || old(self).spec_pos() <= old(self).spec_bytes().len(),
        ensures
            final(self).spec_bytes() == old(self).spec_bytes(),
            ({
                let pos = old(self).spec_pos() as int;
                let size = T::spec_size() as int;
                let bytes = old(self).spec_bytes();
                if pos + size > bytes.len() {
                    r is None && final(self).spec_pos() == old(self).spec_pos()
                } else {
                    exists|d: crate::error::Result<T>|
                        #![trigger T::spec_decoded(bytes.subrange(pos, pos + size), Codec::spec_default(), d)]
                        T::spec_decoded(bytes.subrange(pos, pos + size), Codec::spec_default(), d)
                            && match d {
                            Ok(v) => r == Some(v) && final(self).spec_pos() == pos + size,
                            Err(_) => r is None && final(self).spec_pos() == old(self).spec_pos(),
                        }
                }
            }),
    {
        let size = T::zero().size();
        if self.remaining() < size {
            return None;
        }
        let len = self.len();
        let rest = self.chunk();
        let bytes = slice_subrange(rest, 0, size);
        assert(bytes@ =~= self.spec_bytes().subrange(
            self.spec_pos() as int,
            self.spec_pos() + size,
        ));
        let decoded = T::decode(bytes, Codec::default());
        match decoded {
            Ok(value) => {
                self.pos.advance(size);
                Some(value)
            },
            Err(_) => None,
        }
    }
}

} // verus!
