//! Byte order serialization kinds and endian-aware reads and writes of integers.
use vstd::prelude::*;

use crate::encoding::{
    bytes_of, lemma_pow256_widths, read_uint, to_signed, to_unsigned, value_of, write_uint,
};
use crate::error::{Error, Result};

verus! {

/// Byte order serialization variant.
#[derive(Clone, Copy, Debug, PartialEq, Eq, Hash, PartialOrd, Ord)]
pub enum Endian {
    /// Big endian byte order: most significant byte first.
    Big,
    /// Little endian byte order: least significant byte first.
    Little,
}

impl Endian {
    /// Returns `true` if this instance represents big endian byte order.
    pub fn is_big_endian(&self) -> (b: bool)
        ensures
            b == (*self == Endian::Big),
    {
        match self {
            Endian::Big => true,
            Endian::Little => false,
        }
    }

    /// Returns `true` if this instance represents little endian byte order.
    pub fn is_little_endian(&self) -> (b: bool)
        ensures
            b == (*self == Endian::Little),
    {
        match self {
            Endian::Big => false,
            Endian::Little => true,
        }
    }
}

/// The byte order a codec uses when none other is chosen: little endian.
pub fn little_endian_codec() -> (e: Endian)
    ensures
        e == Endian::Little,
{
    Endian::Little
}

/// Little endian byte order serialization, as a type.
#[derive(Clone, Copy, Debug, Default, PartialEq, Eq, Hash, PartialOrd, Ord)]
pub struct LittleEndian;

/// Big endian byte order serialization, as a type.
#[derive(Clone, Copy, Debug, Default, PartialEq, Eq, Hash, PartialOrd, Ord)]
pub struct BigEndian;

impl From<LittleEndian> for Endian {
    fn from(value: LittleEndian) -> (e: Endian)
        ensures
            e == Endian::Little,
    {
        Endian::Little
    }
}

impl vstd::std_specs::convert::FromSpecImpl<LittleEndian> for Endian {
    open spec fn obeys_from_spec() -> bool {
        true
    }

    open spec fn from_spec(value: LittleEndian) -> Endian {
        Endian::Little
    }
}

impl From<BigEndian> for Endian {
    fn from(value: BigEndian) -> (e: Endian)
        ensures
            e == Endian::Big,
    {
        Endian::Big
    }
}

impl vstd::std_specs::convert::FromSpecImpl<BigEndian> for Endian {
    open spec fn obeys_from_spec() -> bool {
        true
    }

    open spec fn from_spec(value: BigEndian) -> Endian {
        Endian::Big
    }
}

/// Type alias for [`LittleEndian`].
pub type LE = LittleEndian;

/// Type alias for [`BigEndian`].
pub type BE = BigEndian;

/// Type alias for the byte order of the hosts this crate targets (little endian).
pub type NativeEndian = LittleEndian;

/// Network byte order, which is big endian.
pub type NetworkEndian = BigEndian;

/// The two's complement reading of the bit pattern `u` as an `i8`.
pub fn i8_from_bits(u: u8) -> (i: i8)
    ensures
        i as int == to_signed(u as nat, 1),
{
    proof {
        lemma_pow256_widths();
    }
    if u < 0x80 {
        u as i8
    } else {
        ((u - 0x80) as i8) - i8::MAX - 1
    }
}

/// The two's complement bit pattern of `i` as a `u8`.
pub fn i8_to_bits(i: i8) -> (u: u8)
    ensures
        u as nat == to_unsigned(i as int, 1),
{
    proof {
        lemma_pow256_widths();
    }
    if i >= 0 {
        i as u8
    } else {
        ((i + i8::MAX + 1) as u8) + 0x80
    }
}

/// The two's complement reading of the bit pattern `u` as an `i16`.
pub fn i16_from_bits(u: u16) -> (i: i16)
    ensures
        i as int == to_signed(u as nat, 2),
{
    proof {
        lemma_pow256_widths();
    }
    if u < 0x8000 {
        u as i16
    } else {
        ((u - 0x8000) as i16) - i16::MAX - 1
    }
}

/// The two's complement bit pattern of `i` as a `u16`.
pub fn i16_to_bits(i: i16) -> (u: u16)
    ensures
        u as nat == to_unsigned(i as int, 2),
{
    proof {
        lemma_pow256_widths();
    }
    if i >= 0 {
        i as u16
    } else {
        ((i + i16::MAX + 1) as u16) + 0x8000
    }
}

/// The two's complement reading of the bit pattern `u` as an `i32`.
pub fn i32_from_bits(u: u32) -> (i: i32)
    ensures
        i as int == to_signed(u as nat, 4),
{
    proof {
        lemma_pow256_widths();
    }
    if u < 0x8000_0000 {
        u as i32
    } else {
        ((u - 0x8000_0000) as i32) - i32::MAX - 1
    }
}

/// The two's complement bit pattern of `i` as a `u32`.
pub fn i32_to_bits(i: i32) -> (u: u32)
    ensures
        u as nat == to_unsigned(i as int, 4),
{
    proof {
        lemma_pow256_widths();
    }
    if i >= 0 {
        i as u32
    } else {
        ((i + i32::MAX + 1) as u32) + 0x8000_0000
    }
}

/// The two's complement reading of the bit pattern `u` as an `i64`.
pub fn i64_from_bits(u: u64) -> (i: i64)
    ensures
        i as int == to_signed(u as nat, 8),
{
    proof {
        lemma_pow256_widths();
    }
    if u < 0x8000_0000_0000_0000 {
        u as i64
    } else {
        ((u - 0x8000_0000_0000_0000) as i64) - i64::MAX - 1
    }
}

/// The two's complement bit pattern of `i` as a `u64`.
pub fn i64_to_bits(i: i64) -> (u: u64)
    ensures
        u as nat == to_unsigned(i as int, 8),
{
    proof {
        lemma_pow256_widths();
    }
    if i >= 0 {
        i as u64
    } else {
        ((i + i64::MAX + 1) as u64) + 0x8000_0000_0000_0000
    }
}

/// The two's complement reading of the bit pattern `u` as an `i128`.
pub fn i128_from_bits(u: u128) -> (i: i128)
    ensures
        i as int == to_signed(u as nat, 16),
{
    proof {
        lemma_pow256_widths();
    }
    if u < 0x8000_0000_0000_0000_0000_0000_0000_0000 {
        u as i128
    } else {
        ((u - 0x8000_0000_0000_0000_0000_0000_0000_0000) as i128) - i128::MAX - 1
    }
}

/// The two's complement bit pattern of `i` as a `u128`.
pub fn i128_to_bits(i: i128) -> (u: u128)
    ensures
        u as nat == to_unsigned(i as int, 16),
{
    proof {
        lemma_pow256_widths();
    }
    if i >= 0 {
        i as u128
    } else {
        ((i + i128::MAX + 1) as u128) + 0x8000_0000_0000_0000_0000_0000_0000_0000
    }
}

/// Types that fix a byte order and read and write integers in it.
///
/// Reads take the first `size_of::<T>()` bytes of the slice; writes replace the first
/// `size_of::<T>()` bytes of the buffer and leave the rest alone.
pub trait Endianness {
    /// The byte order this type reads and writes in.
    spec fn byte_order() -> Endian;

    /// Reads an [`u8`] from the first 1 byte(s) of `bytes`.
    ///
    /// # Errors
    ///
    /// Returns an out-of-bounds error if `bytes` holds fewer than 1 byte(s).
    fn read_u8(bytes: &[u8]) -> (r: Result<u8>)
        ensures
            r is Ok <==> bytes@.len() >= 1,
            r matches Ok(v) ==> v as nat == value_of(bytes@.subrange(0, 1), Self::byte_order()),
            r matches Err(e) ==> e == Error::spec_out_of_bounds(1, bytes@.len() as usize),
    ;

    /// Reads an [`u16`] from the first 2 byte(s) of `bytes`.
    ///
    /// # Errors
    ///
    /// Returns an out-of-bounds error if `bytes` holds fewer than 2 byte(s).
    fn read_u16(bytes: &[u8]) -> (r: Result<u16>)
        ensures
            r is Ok <==> bytes@.len() >= 2,
            r matches Ok(v) ==> v as nat == value_of(bytes@.subrange(0, 2), Self::byte_order()),
            r matches Err(e) ==> e == Error::spec_out_of_bounds(2, bytes@.len() as usize),
    ;

    /// Reads an [`u32`] from the first 4 byte(s) of `bytes`.
    ///
    /// # Errors
    ///
    /// Returns an out-of-bounds error if `bytes` holds fewer than 4 byte(s).
    fn read_u32(bytes: &[u8]) -> (r: Result<u32>)
        ensures
            r is Ok <==> bytes@.len() >= 4,
            r matches Ok(v) ==> v as nat == value_of(bytes@.subrange(0, 4), Self::byte_order()),
            r matches Err(e) ==> e == Error::spec_out_of_bounds(4, bytes@.len() as usize),
    ;

    /// Reads an [`u64`] from the first 8 byte(s) of `bytes`.
    ///
    /// # Errors
    ///
    /// Returns an out-of-bounds error if `bytes` holds fewer than 8 byte(s).
    fn read_u64(bytes: &[u8]) -> (r: Result<u64>)
        ensures
            r is Ok <==> bytes@.len() >= 8,
            r matches Ok(v) ==> v as nat == value_of(bytes@.subrange(0, 8), Self::byte_order()),
            r matches Err(e) ==> e == Error::spec_out_of_bounds(8, bytes@.len() as usize),
    ;

    /// Reads an [`u128`] from the first 16 byte(s) of `bytes`.
    ///
    /// # Errors
    ///
    /// Returns an out-of-bounds error if `bytes` holds fewer than 16 byte(s).
    fn read_u128(bytes: &[u8]) -> (r: Result<u128>)
        ensures
            r is Ok <==> bytes@.len() >= 16,
            r matches Ok(v) ==> v as nat == value_of(bytes@.subrange(0, 16), Self::byte_order()),
            r matches Err(e) ==> e == Error::spec_out_of_bounds(16, bytes@.len() as usize),
    ;

    /// Reads an [`i8`] from the first 1 byte(s) of `bytes`.
    ///
    /// # Errors
    ///
    /// Returns an out-of-bounds error if `bytes` holds fewer than 1 byte(s).
    fn read_i8(bytes: &[u8]) -> (r: Result<i8>)
        ensures
            r is Ok <==> bytes@.len() >= 1,
            r matches Ok(v) ==> v as int == to_signed(value_of(bytes@.subrange(0, 1), Self::byte_order()), 1),
            r matches Err(e) ==> e == Error::spec_out_of_bounds(1, bytes@.len() as usize),
    ;

    /// Reads an [`i16`] from the first 2 byte(s) of `bytes`.
    ///
    /// # Errors
    ///
    /// Returns an out-of-bounds error if `bytes` holds fewer than 2 byte(s).
    fn read_i16(bytes: &[u8]) -> (r: Result<i16>)
        ensures
            r is Ok <==> bytes@.len() >= 2,
            r matches Ok(v) ==> v as int == to_signed(value_of(bytes@.subrange(0, 2), Self::byte_order()), 2),
            r matches Err(e) ==> e == Error::spec_out_of_bounds(2, bytes@.len() as usize),
    ;

    /// Reads an [`i32`] from the first 4 byte(s) of `bytes`.
    ///
    /// # Errors
    ///
    /// Returns an out-of-bounds error if `bytes` holds fewer than 4 byte(s).
    fn read_i32(bytes: &[u8]) -> (r: Result<i32>)
        ensures
            r is Ok <==> bytes@.len() >= 4,
            r matches Ok(v) ==> v as int == to_signed(value_of(bytes@.subrange(0, 4), Self::byte_order()), 4),
            r matches Err(e) ==> e == Error::spec_out_of_bounds(4, bytes@.len() as usize),
    ;

    /// Reads an [`i64`] from the first 8 byte(s) of `bytes`.
    ///
    /// # Errors
    ///
    /// Returns an out-of-bounds error if `bytes` holds fewer than 8 byte(s).
    fn read_i64(bytes: &[u8]) -> (r: Result<i64>)
        ensures
            r is Ok <==> bytes@.len() >= 8,
            r matches Ok(v) ==> v as int == to_signed(value_of(bytes@.subrange(0, 8), Self::byte_order()), 8),
            r matches Err(e) ==> e == Error::spec_out_of_bounds(8, bytes@.len() as usize),
    ;

    /// Reads an [`i128`] from the first 16 byte(s) of `bytes`.
    ///
    /// # Errors
    ///
    /// Returns an out-of-bounds error if `bytes` holds fewer than 16 byte(s).
    fn read_i128(bytes: &[u8]) -> (r: Result<i128>)
        ensures
            r is Ok <==> bytes@.len() >= 16,
            r matches Ok(v) ==> v as int == to_signed(value_of(bytes@.subrange(0, 16), Self::byte_order()), 16),
            r matches Err(e) ==> e == Error::spec_out_of_bounds(16, bytes@.len() as usize),
    ;

    /// Writes `value` into the first 1 byte(s) of `buf`.
    ///
    /// # Errors
    ///
    /// Returns an out-of-bounds error, and leaves `buf` unchanged, if `buf` holds fewer
    /// than 1 byte(s).
    fn write_u8(buf: &mut [u8], value: u8) -> (r: Result<()>)
        ensures
            r is Ok <==> old(buf)@.len() >= 1,
            r is Ok ==> final(buf)@ == bytes_of(value as nat, 1, Self::byte_order()) + old(
                buf,
            )@.subrange(1, old(buf)@.len() as int),
            r matches Err(e) ==> final(buf)@ == old(buf)@ && e == Error::spec_out_of_bounds(
                1,
                old(buf)@.len() as usize,
            ),
    ;

    /// Writes `value` into the first 2 byte(s) of `buf`.
    ///
    /// # Errors
    ///
    /// Returns an out-of-bounds error, and leaves `buf` unchanged, if `buf` holds fewer
    /// than 2 byte(s).
    fn write_u16(buf: &mut [u8], value: u16) -> (r: Result<()>)
        ensures
            r is Ok <==> old(buf)@.len() >= 2,
            r is Ok ==> final(buf)@ == bytes_of(value as nat, 2, Self::byte_order()) + old(
                buf,
            )@.subrange(2, old(buf)@.len() as int),
            r matches Err(e) ==> final(buf)@ == old(buf)@ && e == Error::spec_out_of_bounds(
                2,
                old(buf)@.len() as usize,
            ),
    ;

    /// Writes `value` into the first 4 byte(s) of `buf`.
    ///
    /// # Errors
    ///
    /// Returns an out-of-bounds error, and leaves `buf` unchanged, if `buf` holds fewer
    /// than 4 byte(s).
    fn write_u32(buf: &mut [u8], value: u32) -> (r: Result<()>)
        ensures
            r is Ok <==> old(buf)@.len() >= 4,
            r is Ok ==> final(buf)@ == bytes_of(value as nat, 4, Self::byte_order()) + old(
                buf,
            )@.subrange(4, old(buf)@.len() as int),
            r matches Err(e) ==> final(buf)@ == old(buf)@ && e == Error::spec_out_of_bounds(
                4,
                old(buf)@.len() as usize,
            ),
    ;

    /// Writes `value` into the first 8 byte(s) of `buf`.
    ///
    /// # Errors
    ///
    /// Returns an out-of-bounds error, and leaves `buf` unchanged, if `buf` holds fewer
    /// than 8 byte(s).
    fn write_u64(buf: &mut [u8], value: u64) -> (r: Result<()>)
        ensures
            r is Ok <==> old(buf)@.len() >= 8,
            r is Ok ==> final(buf)@ == bytes_of(value as nat, 8, Self::byte_order()) + old(
                buf,
            )@.subrange(8, old(buf)@.len() as int),
            r matches Err(e) ==> final(buf)@ == old(buf)@ && e == Error::spec_out_of_bounds(
                8,
                old(buf)@.len() as usize,
            ),
    ;

    /// Writes `value` into the first 16 byte(s) of `buf`.
    ///
    /// # Errors
    ///
    /// Returns an out-of-bounds error, and leaves `buf` unchanged, if `buf` holds fewer
    /// than 16 byte(s).
    fn write_u128(buf: &mut [u8], value: u128) -> (r: Result<()>)
        ensures
            r is Ok <==> old(buf)@.len() >= 16,
            r is Ok ==> final(buf)@ == bytes_of(value as nat, 16, Self::byte_order()) + old(
                buf,
            )@.subrange(16, old(buf)@.len() as int),
            r matches Err(e) ==> final(buf)@ == old(buf)@ && e == Error::spec_out_of_bounds(
                16,
                old(buf)@.len() as usize,
            ),
    ;

    /// Writes `value` into the first 1 byte(s) of `buf`.
    ///
    /// # Errors
    ///
    /// Returns an out-of-bounds error, and leaves `buf` unchanged, if `buf` holds fewer
    /// than 1 byte(s).
    fn write_i8(buf: &mut [u8], value: i8) -> (r: Result<()>)
        ensures
            r is Ok <==> old(buf)@.len() >= 1,
            r is Ok ==> final(buf)@ == bytes_of(to_unsigned(value as int, 1), 1, Self::byte_order()) + old(
                buf,
            )@.subrange(1, old(buf)@.len() as int),
            r matches Err(e) ==> final(buf)@ == old(buf)@ && e == Error::spec_out_of_bounds(
                1,
                old(buf)@.len() as usize,
            ),
    ;

    /// Writes `value` into the first 2 byte(s) of `buf`.
    ///
    /// # Errors
    ///
    /// Returns an out-of-bounds error, and leaves `buf` unchanged, if `buf` holds fewer
    /// than 2 byte(s).
    fn write_i16(buf: &mut [u8], value: i16) -> (r: Result<()>)
        ensures
            r is Ok <==> old(buf)@.len() >= 2,
            r is Ok ==> final(buf)@ == bytes_of(to_unsigned(value as int, 2), 2, Self::byte_order()) + old(
                buf,
            )@.subrange(2, old(buf)@.len() as int),
            r matches Err(e) ==> final(buf)@ == old(buf)@ && e == Error::spec_out_of_bounds(
                2,
                old(buf)@.len() as usize,
            ),
    ;

    /// Writes `value` into the first 4 byte(s) of `buf`.
    ///
    /// # Errors
    ///
    /// Returns an out-of-bounds error, and leaves `buf` unchanged, if `buf` holds fewer
    /// than 4 byte(s).
    fn write_i32(buf: &mut [u8], value: i32) -> (r: Result<()>)
        ensures
            r is Ok <==> old(buf)@.len() >= 4,
            r is Ok ==> final(buf)@ == bytes_of(to_unsigned(value as int, 4), 4, Self::byte_order()) + old(
                buf,
            )@.subrange(4, old(buf)@.len() as int),
            r matches Err(e) ==> final(buf)@ == old(buf)@ && e == Error::spec_out_of_bounds(
                4,
                old(buf)@.len() as usize,
            ),
    ;

    /// Writes `value` into the first 8 byte(s) of `buf`.
    ///
    /// # Errors
    ///
    /// Returns an out-of-bounds error, and leaves `buf` unchanged, if `buf` holds fewer
    /// than 8 byte(s).
    fn write_i64(buf: &mut [u8], value: i64) -> (r: Result<()>)
        ensures
            r is Ok <==> old(buf)@.len() >= 8,
            r is Ok ==> final(buf)@ == bytes_of(to_unsigned(value as int, 8), 8, Self::byte_order()) + old(
                buf,
            )@.subrange(8, old(buf)@.len() as int),
            r matches Err(e) ==> final(buf)@ == old(buf)@ && e == Error::spec_out_of_bounds(
                8,
                old(buf)@.len() as usize,
            ),
    ;

    /// Writes `value` into the first 16 byte(s) of `buf`.
    ///
    /// # Errors
    ///
    /// Returns an out-of-bounds error, and leaves `buf` unchanged, if `buf` holds fewer
    /// than 16 byte(s).
    fn write_i128(buf: &mut [u8], value: i128) -> (r: Result<()>)
        ensures
            r is Ok <==> old(buf)@.len() >= 16,
            r is Ok ==> final(buf)@ == bytes_of(to_unsigned(value as int, 16), 16, Self::byte_order()) + old(
                buf,
            )@.subrange(16, old(buf)@.len() as int),
            r matches Err(e) ==> final(buf)@ == old(buf)@ && e == Error::spec_out_of_bounds(
                16,
                old(buf)@.len() as usize,
            ),
    ;
}

impl Endianness for LittleEndian {
    open spec fn byte_order() -> Endian {
        Endian::Little
    }

    fn read_u8(bytes: &[u8]) -> (r: Result<u8>) {
        if bytes.len() < 1 {
            return Err(Error::out_of_bounds(1, bytes.len()));
        }
        proof {
            lemma_pow256_widths();
        }
        let v = read_uint(bytes, 1, Endian::Little);
        Ok(v as u8)
    }

    fn read_u16(bytes: &[u8]) -> (r: Result<u16>) {
        if bytes.len() < 2 {
            return Err(Error::out_of_bounds(2, bytes.len()));
        }
        proof {
            lemma_pow256_widths();
        }
        let v = read_uint(bytes, 2, Endian::Little);
        Ok(v as u16)
    }

    fn read_u32(bytes: &[u8]) -> (r: Result<u32>) {
        if bytes.len() < 4 {
            return Err(Error::out_of_bounds(4, bytes.len()));
        }
        proof {
            lemma_pow256_widths();
        }
        let v = read_uint(bytes, 4, Endian::Little);
        Ok(v as u32)
    }

    fn read_u64(bytes: &[u8]) -> (r: Result<u64>) {
        if bytes.len() < 8 {
            return Err(Error::out_of_bounds(8, bytes.len()));
        }
        proof {
            lemma_pow256_widths();
        }
        let v = read_uint(bytes, 8, Endian::Little);
        Ok(v as u64)
    }

    fn read_u128(bytes: &[u8]) -> (r: Result<u128>) {
        if bytes.len() < 16 {
            return Err(Error::out_of_bounds(16, bytes.len()));
        }
        proof {
            lemma_pow256_widths();
        }
        let v = read_uint(bytes, 16, Endian::Little);
        Ok(v as u128)
    }

    fn read_i8(bytes: &[u8]) -> (r: Result<i8>) {
        if bytes.len() < 1 {
            return Err(Error::out_of_bounds(1, bytes.len()));
        }
        proof {
            lemma_pow256_widths();
        }
        let v = read_uint(bytes, 1, Endian::Little);
        Ok(i8_from_bits(v as u8))
    }

    fn read_i16(bytes: &[u8]) -> (r: Result<i16>) {
        if bytes.len() < 2 {
            return Err(Error::out_of_bounds(2, bytes.len()));
        }
        proof {
            lemma_pow256_widths();
        }
        let v = read_uint(bytes, 2, Endian::Little);
        Ok(i16_from_bits(v as u16))
    }

    fn read_i32(bytes: &[u8]) -> (r: Result<i32>) {
        if bytes.len() < 4 {
            return Err(Error::out_of_bounds(4, bytes.len()));
        }
        proof {
            lemma_pow256_widths();
        }
        let v = read_uint(bytes, 4, Endian::Little);
        Ok(i32_from_bits(v as u32))
    }

    fn read_i64(bytes: &[u8]) -> (r: Result<i64>) {
        if bytes.len() < 8 {
            return Err(Error::out_of_bounds(8, bytes.len()));
        }
        proof {
            lemma_pow256_widths();
        }
        let v = read_uint(bytes, 8, Endian::Little);
        Ok(i64_from_bits(v as u64))
    }

    fn read_i128(bytes: &[u8]) -> (r: Result<i128>) {
        if bytes.len() < 16 {
            return Err(Error::out_of_bounds(16, bytes.len()));
        }
        proof {
            lemma_pow256_widths();
        }
        let v = read_uint(bytes, 16, Endian::Little);
        Ok(i128_from_bits(v as u128))
    }

    fn write_u8(buf: &mut [u8], value: u8) -> (r: Result<()>) {
        if buf.len() < 1 {
            return Err(Error::out_of_bounds(1, buf.len()));
        }
        write_uint(buf, value as u128, 1, Endian::Little);
        Ok(())
    }

    fn write_u16(buf: &mut [u8], value: u16) -> (r: Result<()>) {
        if buf.len() < 2 {
            return Err(Error::out_of_bounds(2, buf.len()));
        }
        write_uint(buf, value as u128, 2, Endian::Little);
        Ok(())
    }

    fn write_u32(buf: &mut [u8], value: u32) -> (r: Result<()>) {
        if buf.len() < 4 {
            return Err(Error::out_of_bounds(4, buf.len()));
        }
        write_uint(buf, value as u128, 4, Endian::Little);
        Ok(())
    }

    fn write_u64(buf: &mut [u8], value: u64) -> (r: Result<()>) {
        if buf.len() < 8 {
            return Err(Error::out_of_bounds(8, buf.len()));
        }
        write_uint(buf, value as u128, 8, Endian::Little);
        Ok(())
    }

    fn write_u128(buf: &mut [u8], value: u128) -> (r: Result<()>) {
        if buf.len() < 16 {
            return Err(Error::out_of_bounds(16, buf.len()));
        }
        write_uint(buf, value as u128, 16, Endian::Little);
        Ok(())
    }

    fn write_i8(buf: &mut [u8], value: i8) -> (r: Result<()>) {
        if buf.len() < 1 {
            return Err(Error::out_of_bounds(1, buf.len()));
        }
        write_uint(buf, i8_to_bits(value) as u128, 1, Endian::Little);
        Ok(())
    }

    fn write_i16(buf: &mut [u8], value: i16) -> (r: Result<()>) {
        if buf.len() < 2 {
            return Err(Error::out_of_bounds(2, buf.len()));
        }
        write_uint(buf, i16_to_bits(value) as u128, 2, Endian::Little);
        Ok(())
    }

    fn write_i32(buf: &mut [u8], value: i32) -> (r: Result<()>) {
        if buf.len() < 4 {
            return Err(Error::out_of_bounds(4, buf.len()));
        }
        write_uint(buf, i32_to_bits(value) as u128, 4, Endian::Little);
        Ok(())
    }

    fn write_i64(buf: &mut [u8], value: i64) -> (r: Result<()>) {
        if buf.len() < 8 {
            return Err(Error::out_of_bounds(8, buf.len()));
        }
        write_uint(buf, i64_to_bits(value) as u128, 8, Endian::Little);
        Ok(())
    }

    fn write_i128(buf: &mut [u8], value: i128) -> (r: Result<()>) {
        if buf.len() < 16 {
            return Err(Error::out_of_bounds(16, buf.len()));
        }
        write_uint(buf, i128_to_bits(value) as u128, 16, Endian::Little);
        Ok(())
    }
}

impl Endianness for BigEndian {
    open spec fn byte_order() -> Endian {
        Endian::Big
    }

    fn read_u8(bytes: &[u8]) -> (r: Result<u8>) {
        if bytes.len() < 1 {
            return Err(Error::out_of_bounds(1, bytes.len()));
        }
        proof {
            lemma_pow256_widths();
        }
        let v = read_uint(bytes, 1, Endian::Big);
        Ok(v as u8)
    }

    fn read_u16(bytes: &[u8]) -> (r: Result<u16>) {
        if bytes.len() < 2 {
            return Err(Error::out_of_bounds(2, bytes.len()));
        }
        proof {
            lemma_pow256_widths();
        }
        let v = read_uint(bytes, 2, Endian::Big);
        Ok(v as u16)
    }

    fn read_u32(bytes: &[u8]) -> (r: Result<u32>) {
        if bytes.len() < 4 {
            return Err(Error::out_of_bounds(4, bytes.len()));
        }
        proof {
            lemma_pow256_widths();
        }
        let v = read_uint(bytes, 4, Endian::Big);
        Ok(v as u32)
    }

    fn read_u64(bytes: &[u8]) -> (r: Result<u64>) {
        if bytes.len() < 8 {
            return Err(Error::out_of_bounds(8, bytes.len()));
        }
        proof {
            lemma_pow256_widths();
        }
        let v = read_uint(bytes, 8, Endian::Big);
        Ok(v as u64)
    }

    fn read_u128(bytes: &[u8]) -> (r: Result<u128>) {
        if bytes.len() < 16 {
            return Err(Error::out_of_bounds(16, bytes.len()));
        }
        proof {
            lemma_pow256_widths();
        }
        let v = read_uint(bytes, 16, Endian::Big);
        Ok(v as u128)
    }

    fn read_i8(bytes: &[u8]) -> (r: Result<i8>) {
        if bytes.len() < 1 {
            return Err(Error::out_of_bounds(1, bytes.len()));
        }
        proof {
            lemma_pow256_widths();
        }
        let v = read_uint(bytes, 1, Endian::Big);
        Ok(i8_from_bits(v as u8))
    }

    fn read_i16(bytes: &[u8]) -> (r: Result<i16>) {
        if bytes.len() < 2 {
            return Err(Error::out_of_bounds(2, bytes.len()));
        }
        proof {
            lemma_pow256_widths();
        }
        let v = read_uint(bytes, 2, Endian::Big);
        Ok(i16_from_bits(v as u16))
    }

    fn read_i32(bytes: &[u8]) -> (r: Result<i32>) {
        if bytes.len() < 4 {
            return Err(Error::out_of_bounds(4, bytes.len()));
        }
        proof {
            lemma_pow256_widths();
        }
        let v = read_uint(bytes, 4, Endian::Big);
        Ok(i32_from_bits(v as u32))
    }

    fn read_i64(bytes: &[u8]) -> (r: Result<i64>) {
        if bytes.len() < 8 {
            return Err(Error::out_of_bounds(8, bytes.len()));
        }
        proof {
            lemma_pow256_widths();
        }
        let v = read_uint(bytes, 8, Endian::Big);
        Ok(i64_from_bits(v as u64))
    }

    fn read_i128(bytes: &[u8]) -> (r: Result<i128>) {
        if bytes.len() < 16 {
            return Err(Error::out_of_bounds(16, bytes.len()));
        }
        proof {
            lemma_pow256_widths();
        }
        let v = read_uint(bytes, 16, Endian::Big);
        Ok(i128_from_bits(v as u128))
    }

    fn write_u8(buf: &mut [u8], value: u8) -> (r: Result<()>) {
        if buf.len() < 1 {
            return Err(Error::out_of_bounds(1, buf.len()));
        }
        write_uint(buf, value as u128, 1, Endian::Big);
        Ok(())
    }

    fn write_u16(buf: &mut [u8], value: u16) -> (r: Result<()>) {
        if buf.len() < 2 {
            return Err(Error::out_of_bounds(2, buf.len()));
        }
        write_uint(buf, value as u128, 2, Endian::Big);
        Ok(())
    }

    fn write_u32(buf: &mut [u8], value: u32) -> (r: Result<()>) {
        if buf.len() < 4 {
            return Err(Error::out_of_bounds(4, buf.len()));
        }
        write_uint(buf, value as u128, 4, Endian::Big);
        Ok(())
    }

    fn write_u64(buf: &mut [u8], value: u64) -> (r: Result<()>) {
        if buf.len() < 8 {
            return Err(Error::out_of_bounds(8, buf.len()));
        }
        write_uint(buf, value as u128, 8, Endian::Big);
        Ok(())
    }

    fn write_u128(buf: &mut [u8], value: u128) -> (r: Result<()>) {
        if buf.len() < 16 {
            return Err(Error::out_of_bounds(16, buf.len()));
        }
        write_uint(buf, value as u128, 16, Endian::Big);
        Ok(())
    }

    fn write_i8(buf: &mut [u8], value: i8) -> (r: Result<()>) {
        if buf.len() < 1 {
            return Err(Error::out_of_bounds(1, buf.len()));
        }
        write_uint(buf, i8_to_bits(value) as u128, 1, Endian::Big);
        Ok(())
    }

    fn write_i16(buf: &mut [u8], value: i16) -> (r: Result<()>) {
        if buf.len() < 2 {
            return Err(Error::out_of_bounds(2, buf.len()));
        }
        write_uint(buf, i16_to_bits(value) as u128, 2, Endian::Big);
        Ok(())
    }

    fn write_i32(buf: &mut [u8], value: i32) -> (r: Result<()>) {
        if buf.len() < 4 {
            return Err(Error::out_of_bounds(4, buf.len()));
        }
        write_uint(buf, i32_to_bits(value) as u128, 4, Endian::Big);
        Ok(())
    }

    fn write_i64(buf: &mut [u8], value: i64) -> (r: Result<()>) {
        if buf.len() < 8 {
            return Err(Error::out_of_bounds(8, buf.len()));
        }
        write_uint(buf, i64_to_bits(value) as u128, 8, Endian::Big);
        Ok(())
    }

    fn write_i128(buf: &mut [u8], value: i128) -> (r: Result<()>) {
        if buf.len() < 16 {
            return Err(Error::out_of_bounds(16, buf.len()));
        }
        write_uint(buf, i128_to_bits(value) as u128, 16, Endian::Big);
        Ok(())
    }
}

/// Types with a known byte order serialization.
pub trait ByteOrder: Sized {
    /// Holds of the types that stand for little endian byte order.
    spec fn spec_is_little_endian() -> bool;

    /// Returns `true` if this type stands for little endian byte order.
    fn is_little_endian(&self) -> (b: bool)
        ensures
            b == Self::spec_is_little_endian(),
    ;

    /// Returns `true` if this type stands for big endian byte order.
    fn is_big_endian(&self) -> (b: bool)
        ensures
            b == !Self::spec_is_little_endian(),
    {
        !self.is_little_endian()
    }
}

impl ByteOrder for LittleEndian {
    open spec fn spec_is_little_endian() -> bool {
        true
    }

    fn is_little_endian(&self) -> (b: bool) {
        true
    }
}

impl ByteOrder for BigEndian {
    open spec fn spec_is_little_endian() -> bool {
        false
    }

    fn is_little_endian(&self) -> (b: bool) {
        false
    }
}

/// The byte order a [`ByteOrder`] type stands for.
pub open spec fn order_of<O: ByteOrder>() -> Endian {
    if O::spec_is_little_endian() {
        Endian::Little
    } else {
        Endian::Big
    }
}

/// Determines how integers are deserialized from a slice of bytes that is known to
/// be long enough.
pub trait Deserializer: ByteOrder {

    /// Deserializes an [`u8`] from the first 1 byte(s) of `bytes`.
    fn deserialize_u8(self, bytes: &[u8]) -> (v: u8)
        requires
            bytes@.len() >= 1,
        ensures
            v as nat == value_of(bytes@.subrange(0, 1), order_of::<Self>()),
    ;

    /// Deserializes an [`u16`] from the first 2 byte(s) of `bytes`.
    fn deserialize_u16(self, bytes: &[u8]) -> (v: u16)
        requires
            bytes@.len() >= 2,
        ensures
            v as nat == value_of(bytes@.subrange(0, 2), order_of::<Self>()),
    ;

    /// Deserializes an [`u32`] from the first 4 byte(s) of `bytes`.
    fn deserialize_u32(self, bytes: &[u8]) -> (v: u32)
        requires
            bytes@.len() >= 4,
        ensures
            v as nat == value_of(bytes@.subrange(0, 4), order_of::<Self>()),
    ;

    /// Deserializes an [`u64`] from the first 8 byte(s) of `bytes`.
    fn deserialize_u64(self, bytes: &[u8]) -> (v: u64)
        requires
            bytes@.len() >= 8,
        ensures
            v as nat == value_of(bytes@.subrange(0, 8), order_of::<Self>()),
    ;

    /// Deserializes an [`u128`] from the first 16 byte(s) of `bytes`.
    fn deserialize_u128(self, bytes: &[u8]) -> (v: u128)
        requires
            bytes@.len() >= 16,
        ensures
            v as nat == value_of(bytes@.subrange(0, 16), order_of::<Self>()),
    ;

    /// Deserializes an [`i8`] from the first 1 byte(s) of `bytes`.
    fn deserialize_i8(self, bytes: &[u8]) -> (v: i8)
        requires
            bytes@.len() >= 1,
        ensures
            v as int == to_signed(value_of(bytes@.subrange(0, 1), order_of::<Self>()), 1),
    {
        i8_from_bits(self.deserialize_u8(bytes))
    }

    /// Deserializes an [`i16`] from the first 2 byte(s) of `bytes`.
    fn deserialize_i16(self, bytes: &[u8]) -> (v: i16)
        requires
            bytes@.len() >= 2,
        ensures
            v as int == to_signed(value_of(bytes@.subrange(0, 2), order_of::<Self>()), 2),
    {
        i16_from_bits(self.deserialize_u16(bytes))
    }

    /// Deserializes an [`i32`] from the first 4 byte(s) of `bytes`.
    fn deserialize_i32(self, bytes: &[u8]) -> (v: i32)
        requires
            bytes@.len() >= 4,
        ensures
            v as int == to_signed(value_of(bytes@.subrange(0, 4), order_of::<Self>()), 4),
    {
        i32_from_bits(self.deserialize_u32(bytes))
    }

    /// Deserializes an [`i64`] from the first 8 byte(s) of `bytes`.
    fn deserialize_i64(self, bytes: &[u8]) -> (v: i64)
        requires
            bytes@.len() >= 8,
        ensures
            v as int == to_signed(value_of(bytes@.subrange(0, 8), order_of::<Self>()), 8),
    {
        i64_from_bits(self.deserialize_u64(bytes))
    }

    /// Deserializes an [`i128`] from the first 16 byte(s) of `bytes`.
    fn deserialize_i128(self, bytes: &[u8]) -> (v: i128)
        requires
            bytes@.len() >= 16,
        ensures
            v as int == to_signed(value_of(bytes@.subrange(0, 16), order_of::<Self>()), 16),
    {
        i128_from_bits(self.deserialize_u128(bytes))
    }
}

impl Deserializer for LittleEndian {
    fn deserialize_u8(self, bytes: &[u8]) -> (v: u8) {
        proof {
            lemma_pow256_widths();
        }
        read_uint(bytes, 1, Endian::Little) as u8
    }

    fn deserialize_u16(self, bytes: &[u8]) -> (v: u16) {
        proof {
            lemma_pow256_widths();
        }
        read_uint(bytes, 2, Endian::Little) as u16
    }

    fn deserialize_u32(self, bytes: &[u8]) -> (v: u32) {
        proof {
            lemma_pow256_widths();
        }
        read_uint(bytes, 4, Endian::Little) as u32
    }

    fn deserialize_u64(self, bytes: &[u8]) -> (v: u64) {
        proof {
            lemma_pow256_widths();
        }
        read_uint(bytes, 8, Endian::Little) as u64
    }

    fn deserialize_u128(self, bytes: &[u8]) -> (v: u128) {
        proof {
            lemma_pow256_widths();
        }
        read_uint(bytes, 16, Endian::Little) as u128
    }
}

impl Deserializer for BigEndian {
    fn deserialize_u8(self, bytes: &[u8]) -> (v: u8) {
        proof {
            lemma_pow256_widths();
        }
        read_uint(bytes, 1, Endian::Big) as u8
    }

    fn deserialize_u16(self, bytes: &[u8]) -> (v: u16) {
        proof {
            lemma_pow256_widths();
        }
        read_uint(bytes, 2, Endian::Big) as u16
    }

    fn deserialize_u32(self, bytes: &[u8]) -> (v: u32) {
        proof {
            lemma_pow256_widths();
        }
        read_uint(bytes, 4, Endian::Big) as u32
    }

    fn deserialize_u64(self, bytes: &[u8]) -> (v: u64) {
        proof {
            lemma_pow256_widths();
        }
        read_uint(bytes, 8, Endian::Big) as u64
    }

    fn deserialize_u128(self, bytes: &[u8]) -> (v: u128) {
        proof {
            lemma_pow256_widths();
        }
        read_uint(bytes, 16, Endian::Big) as u128
    }
}

} // verus!
