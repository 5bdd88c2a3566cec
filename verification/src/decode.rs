//! Decoding of values from a slice of bytes, as directed by a [`Codec`].
use vstd::prelude::*;

use crate::codec::Codec;
use crate::encoding::{lemma_pow256_widths, to_signed, value_of};
use crate::endian::{BigEndian, Endian, Endianness, LittleEndian};
use crate::error::{Error, Result};

verus! {

/// Defines how a type is decoded, or deserialized, from a slice of bytes in the byte
/// order of a [`Codec`].
pub trait Decode: Sized {
    /// Holds exactly when `r` is the outcome of decoding `bytes` with `codec`.
    spec fn spec_decoded(bytes: Seq<u8>, codec: Codec, r: Result<Self>) -> bool;

    /// Decodes a value of this type from the front of `bytes`.
    ///
    /// # Errors
    ///
    /// Returns an error if `bytes` is too short for the type, or longer than the limit
    /// of `codec`.
    fn decode(bytes: &[u8], codec: Codec) -> (r: Result<Self>)
        ensures
            Self::spec_decoded(bytes@, codec, r),
    ;
}

/// The outcome of decoding a `size`-byte integer, as an unsigned value, from `bytes`:
/// an out-of-bounds error if `bytes` is shorter than `size`, a decode failure if it is
/// longer than the codec's limit, and otherwise the value of its first `size` bytes.
pub open spec fn decode_unsigned(bytes: Seq<u8>, size: nat, codec: Codec) -> Result<nat> {
    if bytes.len() < size {
        Err(Error::spec_out_of_bounds(size as usize, bytes.len() as usize))
    } else if bytes.len() > codec.spec_limit().spec_get() {
        Err(Error::spec_decode_failed())
    } else {
        Ok(value_of(bytes.subrange(0, size as int), codec.spec_endian()))
    }
}

impl Decode for u8 {
    open spec fn spec_decoded(bytes: Seq<u8>, codec: Codec, r: Result<u8>) -> bool {
        match decode_unsigned(bytes, 1, codec) {
            Ok(v) => r matches Ok(x) && v == x as nat,
            Err(e) => r == Err::<u8, Error>(e),
        }
    }

    fn decode(bytes: &[u8], codec: Codec) -> (r: Result<u8>) {
        if bytes.len() < 1 {
            Err(Error::out_of_bounds(1, bytes.len()))
        } else if bytes.len() > codec.limit().get() as usize {
            Err(Error::decode_failed())
        } else {
            match codec.endian() {
                Endian::Big => <BigEndian as Endianness>::read_u8(bytes),
                Endian::Little => <LittleEndian as Endianness>::read_u8(bytes),
            }
        }
    }
}

impl Decode for u16 {
    open spec fn spec_decoded(bytes: Seq<u8>, codec: Codec, r: Result<u16>) -> bool {
        match decode_unsigned(bytes, 2, codec) {
            Ok(v) => r matches Ok(x) && v == x as nat,
            Err(e) => r == Err::<u16, Error>(e),
        }
    }

    fn decode(bytes: &[u8], codec: Codec) -> (r: Result<u16>) {
        if bytes.len() < 2 {
            Err(Error::out_of_bounds(2, bytes.len()))
        } else if bytes.len() > codec.limit().get() as usize {
            Err(Error::decode_failed())
        } else {
            match codec.endian() {
                Endian::Big => <BigEndian as Endianness>::read_u16(bytes),
                Endian::Little => <LittleEndian as Endianness>::read_u16(bytes),
            }
        }
    }
}

impl Decode for u32 {
    open spec fn spec_decoded(bytes: Seq<u8>, codec: Codec, r: Result<u32>) -> bool {
        match decode_unsigned(bytes, 4, codec) {
            Ok(v) => r matches Ok(x) && v == x as nat,
            Err(e) => r == Err::<u32, Error>(e),
        }
    }

    fn decode(bytes: &[u8], codec: Codec) -> (r: Result<u32>) {
        if bytes.len() < 4 {
            Err(Error::out_of_bounds(4, bytes.len()))
        } else if bytes.len() > codec.limit().get() as usize {
            Err(Error::decode_failed())
        } else {
            match codec.endian() {
                Endian::Big => <BigEndian as Endianness>::read_u32(bytes),
                Endian::Little => <LittleEndian as Endianness>::read_u32(bytes),
            }
        }
    }
}

impl Decode for u64 {
    open spec fn spec_decoded(bytes: Seq<u8>, codec: Codec, r: Result<u64>) -> bool {
        match decode_unsigned(bytes, 8, codec) {
            Ok(v) => r matches Ok(x) && v == x as nat,
            Err(e) => r == Err::<u64, Error>(e),
        }
    }

    fn decode(bytes: &[u8], codec: Codec) -> (r: Result<u64>) {
        if bytes.len() < 8 {
            Err(Error::out_of_bounds(8, bytes.len()))
        } else if bytes.len() > codec.limit().get() as usize {
            Err(Error::decode_failed())
        } else {
            match codec.endian() {
                Endian::Big => <BigEndian as Endianness>::read_u64(bytes),
                Endian::Little => <LittleEndian as Endianness>::read_u64(bytes),
            }
        }
    }
}

impl Decode for u128 {
    open spec fn spec_decoded(bytes: Seq<u8>, codec: Codec, r: Result<u128>) -> bool {
        match decode_unsigned(bytes, 16, codec) {
            Ok(v) => r matches Ok(x) && v == x as nat,
            Err(e) => r == Err::<u128, Error>(e),
        }
    }

    fn decode(bytes: &[u8], codec: Codec) -> (r: Result<u128>) {
        if bytes.len() < 16 {
            Err(Error::out_of_bounds(16, bytes.len()))
        } else if bytes.len() > codec.limit().get() as usize {
            Err(Error::decode_failed())
        } else {
            match codec.endian() {
                Endian::Big => <BigEndian as Endianness>::read_u128(bytes),
                Endian::Little => <LittleEndian as Endianness>::read_u128(bytes),
            }
        }
    }
}

impl Decode for i8 {
    open spec fn spec_decoded(bytes: Seq<u8>, codec: Codec, r: Result<i8>) -> bool {
        match decode_unsigned(bytes, 1, codec) {
            Ok(v) => r matches Ok(x) && to_signed(v, 1) == x as int,
            Err(e) => r == Err::<i8, Error>(e),
        }
    }

    fn decode(bytes: &[u8], codec: Codec) -> (r: Result<i8>) {
        if bytes.len() < 1 {
            Err(Error::out_of_bounds(1, bytes.len()))
        } else if bytes.len() > codec.limit().get() as usize {
            Err(Error::decode_failed())
        } else {
            match codec.endian() {
                Endian::Big => <BigEndian as Endianness>::read_i8(bytes),
                Endian::Little => <LittleEndian as Endianness>::read_i8(bytes),
            }
        }
    }
}

impl Decode for i16 {
    open spec fn spec_decoded(bytes: Seq<u8>, codec: Codec, r: Result<i16>) -> bool {
        match decode_unsigned(bytes, 2, codec) {
            Ok(v) => r matches Ok(x) && to_signed(v, 2) == x as int,
            Err(e) => r == Err::<i16, Error>(e),
        }
    }

    fn decode(bytes: &[u8], codec: Codec) -> (r: Result<i16>) {
        if bytes.len() < 2 {
            Err(Error::out_of_bounds(2, bytes.len()))
        } else if bytes.len() > codec.limit().get() as usize {
            Err(Error::decode_failed())
        } else {
            match codec.endian() {
                Endian::Big => <BigEndian as Endianness>::read_i16(bytes),
                Endian::Little => <LittleEndian as Endianness>::read_i16(bytes),
            }
        }
    }
}

impl Decode for i32 {
    open spec fn spec_decoded(bytes: Seq<u8>, codec: Codec, r: Result<i32>) -> bool {
        match decode_unsigned(bytes, 4, codec) {
            Ok(v) => r matches Ok(x) && to_signed(v, 4) == x as int,
            Err(e) => r == Err::<i32, Error>(e),
        }
    }

    fn decode(bytes: &[u8], codec: Codec) -> (r: Result<i32>) {
        if bytes.len() < 4 {
            Err(Error::out_of_bounds(4, bytes.len()))
        } else if bytes.len() > codec.limit().get() as usize {
            Err(Error::decode_failed())
        } else {
            match codec.endian() {
                Endian::Big => <BigEndian as Endianness>::read_i32(bytes),
                Endian::Little => <LittleEndian as Endianness>::read_i32(bytes),
            }
        }
    }
}

impl Decode for i64 {
    open spec fn spec_decoded(bytes: Seq<u8>, codec: Codec, r: Result<i64>) -> bool {
        match decode_unsigned(bytes, 8, codec) {
            Ok(v) => r matches Ok(x) && to_signed(v, 8) == x as int,
            Err(e) => r == Err::<i64, Error>(e),
        }
    }

    fn decode(bytes: &[u8], codec: Codec) -> (r: Result<i64>) {
        if bytes.len() < 8 {
            Err(Error::out_of_bounds(8, bytes.len()))
        } else if bytes.len() > codec.limit().get() as usize {
            Err(Error::decode_failed())
        } else {
            match codec.endian() {
                Endian::Big => <BigEndian as Endianness>::read_i64(bytes),
                Endian::Little => <LittleEndian as Endianness>::read_i64(bytes),
            }
        }
    }
}

impl Decode for i128 {
    open spec fn spec_decoded(bytes: Seq<u8>, codec: Codec, r: Result<i128>) -> bool {
        match decode_unsigned(bytes, 16, codec) {
            Ok(v) => r matches Ok(x) && to_signed(v, 16) == x as int,
            Err(e) => r == Err::<i128, Error>(e),
        }
    }

    fn decode(bytes: &[u8], codec: Codec) -> (r: Result<i128>) {
        if bytes.len() < 16 {
            Err(Error::out_of_bounds(16, bytes.len()))
        } else if bytes.len() > codec.limit().get() as usize {
            Err(Error::decode_failed())
        } else {
            match codec.endian() {
                Endian::Big => <BigEndian as Endianness>::read_i128(bytes),
                Endian::Little => <LittleEndian as Endianness>::read_i128(bytes),
            }
        }
    }
}

/// The outcome of decoding `N` consecutive 2-byte integers from `bytes`, as unsigned
/// values: each one is decoded from the bytes that remain after the ones before it, so
/// the first failure decides the error.
pub open spec fn decode_u16_array(bytes: Seq<u8>, n: nat, codec: Codec) -> Result<Seq<u16>> {
    let len = bytes.len();
    if n == 0 {
        Ok(Seq::empty())
    } else if len < 2 {
        Err(Error::spec_out_of_bounds(2, len as usize))
    } else if len > codec.spec_limit().spec_get() {
        Err(Error::spec_decode_failed())
    } else if len < 2 * n {
        Err(Error::spec_out_of_bounds(2, (len % 2) as usize))
    } else {
        Ok(
            Seq::new(
                n,
                |k: int| value_of(bytes.subrange(2 * k, 2 * k + 2), codec.spec_endian()) as u16,
            ),
        )
    }
}

impl<const N: usize> Decode for [u16; N] {
    open spec fn spec_decoded(bytes: Seq<u8>, codec: Codec, r: Result<[u16; N]>) -> bool {
        match decode_u16_array(bytes, N as nat, codec) {
            Ok(s) => r matches Ok(a) && a@ == s,
            Err(e) => r == Err::<[u16; N], Error>(e),
        }
    }

    fn decode(bytes: &[u8], codec: Codec) -> (r: Result<[u16; N]>) {
        let ghost e = codec.spec_endian();
        let ghost limit = codec.spec_limit().spec_get();
        let mut buf = [0u16; N];
        let mut pos: usize = 0;
        while pos < N
            invariant
                pos <= N,
                2 * pos <= bytes@.len(),
                pos > 0 ==> bytes@.len() <= limit,
                e == codec.spec_endian(),
                limit == codec.spec_limit().spec_get(),
                forall|k: int|
                    0 <= k < pos ==> buf@[k] == value_of(bytes@.subrange(2 * k, 2 * k + 2), e) as u16,
            decreases N - pos,
        {
            let offset = pos * 2;
            let rest = vstd::slice::slice_subrange(bytes, offset, bytes.len());
            assert(rest@ =~= bytes@.subrange(offset as int, bytes@.len() as int));
            match u16::decode(rest, codec) {
                Ok(elem) => {
                    assert(rest@.subrange(0, 2) =~= bytes@.subrange(2 * pos, 2 * pos + 2));
                    buf[pos] = elem;
                    pos = pos + 1;
                },
                Err(err) => {
                    proof {
                        if pos > 0 {
                            assert(rest@.len() == bytes@.len() - 2 * pos);
                            assert(rest@.len() < 2);
                            assert(rest@.len() == bytes@.len() % 2);
                        }
                    }
                    return Err(err);
                },
            }
        }
        assert(buf@ =~= Seq::new(
            N as nat,
            |k: int| value_of(bytes@.subrange(2 * k, 2 * k + 2), e) as u16,
        ));
        if N == 0 {
            assert(buf@ =~= Seq::<u16>::empty());
        }
        Ok(buf)
    }
}

} // verus!
