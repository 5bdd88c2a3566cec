//! Endian-aware decoding of the crate's aligned integer types.
use vstd::prelude::*;

use crate::chunk::Chunk;
use crate::encoding::{to_signed, value_of};
use crate::endian::{BigEndian, LittleEndian};
use crate::error::{Error, Result};
use crate::integer::{I128, I16, I32, I64, I8, U128, U16, U32, U64, U8};

verus! {

/// A type that fixes a byte order and decodes the aligned integer types in it, from
/// the front of a slice of bytes.
pub trait Endian {
    /// The byte order this type decodes in.
    spec fn byte_order() -> crate::endian::Endian;

    /// Decodes a [`U8`] from the first 1 byte(s) of `bytes`.
    ///
    /// # Errors
    ///
    /// Returns a decode failure if `bytes` holds fewer than 1 byte(s).
    fn read_u8(bytes: &[u8]) -> (r: Result<U8>)
        ensures
            r is Ok <==> bytes@.len() >= 1,
            r matches Ok(x) ==> x@ as nat == value_of(bytes@.subrange(0, 1), Self::byte_order()),
            r matches Err(e) ==> e == Error::spec_decode_failed(),
    ;

    /// Decodes a [`U16`] from the first 2 byte(s) of `bytes`.
    ///
    /// # Errors
    ///
    /// Returns a decode failure if `bytes` holds fewer than 2 byte(s).
    fn read_u16(bytes: &[u8]) -> (r: Result<U16>)
        ensures
            r is Ok <==> bytes@.len() >= 2,
            r matches Ok(x) ==> x@ as nat == value_of(bytes@.subrange(0, 2), Self::byte_order()),
            r matches Err(e) ==> e == Error::spec_decode_failed(),
    ;

    /// Decodes a [`U32`] from the first 4 byte(s) of `bytes`.
    ///
    /// # Errors
    ///
    /// Returns a decode failure if `bytes` holds fewer than 4 byte(s).
    fn read_u32(bytes: &[u8]) -> (r: Result<U32>)
        ensures
            r is Ok <==> bytes@.len() >= 4,
            r matches Ok(x) ==> x@ as nat == value_of(bytes@.subrange(0, 4), Self::byte_order()),
            r matches Err(e) ==> e == Error::spec_decode_failed(),
    ;

    /// Decodes a [`U64`] from the first 8 byte(s) of `bytes`.
    ///
    /// # Errors
    ///
    /// Returns a decode failure if `bytes` holds fewer than 8 byte(s).
    fn read_u64(bytes: &[u8]) -> (r: Result<U64>)
        ensures
            r is Ok <==> bytes@.len() >= 8,
            r matches Ok(x) ==> x@ as nat == value_of(bytes@.subrange(0, 8), Self::byte_order()),
            r matches Err(e) ==> e == Error::spec_decode_failed(),
    ;

    /// Decodes a [`U128`] from the first 16 byte(s) of `bytes`.
    ///
    /// # Errors
    ///
    /// Returns a decode failure if `bytes` holds fewer than 16 byte(s).
    fn read_u128(bytes: &[u8]) -> (r: Result<U128>)
        ensures
            r is Ok <==> bytes@.len() >= 16,
            r matches Ok(x) ==> x@ as nat == value_of(bytes@.subrange(0, 16), Self::byte_order()),
            r matches Err(e) ==> e == Error::spec_decode_failed(),
    ;

    /// Decodes a [`I8`] from the first 1 byte(s) of `bytes`.
    ///
    /// # Errors
    ///
    /// Returns a decode failure if `bytes` holds fewer than 1 byte(s).
    fn read_i8(bytes: &[u8]) -> (r: Result<I8>)
        ensures
            r is Ok <==> bytes@.len() >= 1,
            r matches Ok(x) ==> x@ as int == to_signed(value_of(bytes@.subrange(0, 1), Self::byte_order()), 1),
            r matches Err(e) ==> e == Error::spec_decode_failed(),
    ;

    /// Decodes a [`I16`] from the first 2 byte(s) of `bytes`.
    ///
    /// # Errors
    ///
    /// Returns a decode failure if `bytes` holds fewer than 2 byte(s).
    fn read_i16(bytes: &[u8]) -> (r: Result<I16>)
        ensures
            r is Ok <==> bytes@.len() >= 2,
            r matches Ok(x) ==> x@ as int == to_signed(value_of(bytes@.subrange(0, 2), Self::byte_order()), 2),
            r matches Err(e) ==> e == Error::spec_decode_failed(),
    ;

    /// Decodes a [`I32`] from the first 4 byte(s) of `bytes`.
    ///
    /// # Errors
    ///
    /// Returns a decode failure if `bytes` holds fewer than 4 byte(s).
    fn read_i32(bytes: &[u8]) -> (r: Result<I32>)
        ensures
            r is Ok <==> bytes@.len() >= 4,
            r matches Ok(x) ==> x@ as int == to_signed(value_of(bytes@.subrange(0, 4), Self::byte_order()), 4),
            r matches Err(e) ==> e == Error::spec_decode_failed(),
    ;

    /// Decodes a [`I64`] from the first 8 byte(s) of `bytes`.
    ///
    /// # Errors
    ///
    /// Returns a decode failure if `bytes` holds fewer than 8 byte(s).
    fn read_i64(bytes: &[u8]) -> (r: Result<I64>)
        ensures
            r is Ok <==> bytes@.len() >= 8,
            r matches Ok(x) ==> x@ as int == to_signed(value_of(bytes@.subrange(0, 8), Self::byte_order()), 8),
            r matches Err(e) ==> e == Error::spec_decode_failed(),
    ;

    /// Decodes a [`I128`] from the first 16 byte(s) of `bytes`.
    ///
    /// # Errors
    ///
    /// Returns a decode failure if `bytes` holds fewer than 16 byte(s).
    fn read_i128(bytes: &[u8]) -> (r: Result<I128>)
        ensures
            r is Ok <==> bytes@.len() >= 16,
            r matches Ok(x) ==> x@ as int == to_signed(value_of(bytes@.subrange(0, 16), Self::byte_order()), 16),
            r matches Err(e) ==> e == Error::spec_decode_failed(),
    ;
}

impl Endian for LittleEndian {
    open spec fn byte_order() -> crate::endian::Endian {
        crate::endian::Endian::Little
    }

    fn read_u8(bytes: &[u8]) -> (r: Result<U8>) {
        match Chunk::<1>::from_bytes(bytes) {
            Ok(chunk) => Ok(U8::from_le_chunk(chunk)),
            Err(_) => Err(Error::decode_failed()),
        }
    }

    fn read_u16(bytes: &[u8]) -> (r: Result<U16>) {
        match Chunk::<2>::from_bytes(bytes) {
            Ok(chunk) => Ok(U16::from_le_chunk(chunk)),
            Err(_) => Err(Error::decode_failed()),
        }
    }

    fn read_u32(bytes: &[u8]) -> (r: Result<U32>) {
        match Chunk::<4>::from_bytes(bytes) {
            Ok(chunk) => Ok(U32::from_le_chunk(chunk)),
            Err(_) => Err(Error::decode_failed()),
        }
    }

    fn read_u64(bytes: &[u8]) -> (r: Result<U64>) {
        match Chunk::<8>::from_bytes(bytes) {
            Ok(chunk) => Ok(U64::from_le_chunk(chunk)),
            Err(_) => Err(Error::decode_failed()),
        }
    }

    fn read_u128(bytes: &[u8]) -> (r: Result<U128>) {
        match Chunk::<16>::from_bytes(bytes) {
            Ok(chunk) => Ok(U128::from_le_chunk(chunk)),
            Err(_) => Err(Error::decode_failed()),
        }
    }

    fn read_i8(bytes: &[u8]) -> (r: Result<I8>) {
        match Chunk::<1>::from_bytes(bytes) {
            Ok(chunk) => Ok(I8::from_le_chunk(chunk)),
            Err(_) => Err(Error::decode_failed()),
        }
    }

    fn read_i16(bytes: &[u8]) -> (r: Result<I16>) {
        match Chunk::<2>::from_bytes(bytes) {
            Ok(chunk) => Ok(I16::from_le_chunk(chunk)),
            Err(_) => Err(Error::decode_failed()),
        }
    }

    fn read_i32(bytes: &[u8]) -> (r: Result<I32>) {
        match Chunk::<4>::from_bytes(bytes) {
            Ok(chunk) => Ok(I32::from_le_chunk(chunk)),
            Err(_) => Err(Error::decode_failed()),
        }
    }

    fn read_i64(bytes: &[u8]) -> (r: Result<I64>) {
        match Chunk::<8>::from_bytes(bytes) {
            Ok(chunk) => Ok(I64::from_le_chunk(chunk)),
            Err(_) => Err(Error::decode_failed()),
        }
    }

    fn read_i128(bytes: &[u8]) -> (r: Result<I128>) {
        match Chunk::<16>::from_bytes(bytes) {
            Ok(chunk) => Ok(I128::from_le_chunk(chunk)),
            Err(_) => Err(Error::decode_failed()),
        }
    }
}

impl Endian for BigEndian {
    open spec fn byte_order() -> crate::endian::Endian {
        crate::endian::Endian::Big
    }

    fn read_u8(bytes: &[u8]) -> (r: Result<U8>) {
        match Chunk::<1>::from_bytes(bytes) {
            Ok(chunk) => Ok(U8::from_be_chunk(chunk)),
            Err(_) => Err(Error::decode_failed()),
        }
    }

    fn read_u16(bytes: &[u8]) -> (r: Result<U16>) {
        match Chunk::<2>::from_bytes(bytes) {
            Ok(chunk) => Ok(U16::from_be_chunk(chunk)),
            Err(_) => Err(Error::decode_failed()),
        }
    }

    fn read_u32(bytes: &[u8]) -> (r: Result<U32>) {
        match Chunk::<4>::from_bytes(bytes) {
            Ok(chunk) => Ok(U32::from_be_chunk(chunk)),
            Err(_) => Err(Error::decode_failed()),
        }
    }

    fn read_u64(bytes: &[u8]) -> (r: Result<U64>) {
        match Chunk::<8>::from_bytes(bytes) {
            Ok(chunk) => Ok(U64::from_be_chunk(chunk)),
            Err(_) => Err(Error::decode_failed()),
        }
    }

    fn read_u128(bytes: &[u8]) -> (r: Result<U128>) {
        match Chunk::<16>::from_bytes(bytes) {
            Ok(chunk) => Ok(U128::from_be_chunk(chunk)),
            Err(_) => Err(Error::decode_failed()),
        }
    }

    fn read_i8(bytes: &[u8]) -> (r: Result<I8>) {
        match Chunk::<1>::from_bytes(bytes) {
            Ok(chunk) => Ok(I8::from_be_chunk(chunk)),
            Err(_) => Err(Error::decode_failed()),
        }
    }

    fn read_i16(bytes: &[u8]) -> (r: Result<I16>) {
        match Chunk::<2>::from_bytes(bytes) {
            Ok(chunk) => Ok(I16::from_be_chunk(chunk)),
            Err(_) => Err(Error::decode_failed()),
        }
    }

    fn read_i32(bytes: &[u8]) -> (r: Result<I32>) {
        match Chunk::<4>::from_bytes(bytes) {
            Ok(chunk) => Ok(I32::from_be_chunk(chunk)),
            Err(_) => Err(Error::decode_failed()),
        }
    }

    fn read_i64(bytes: &[u8]) -> (r: Result<I64>) {
        match Chunk::<8>::from_bytes(bytes) {
            Ok(chunk) => Ok(I64::from_be_chunk(chunk)),
            Err(_) => Err(Error::decode_failed()),
        }
    }

    fn read_i128(bytes: &[u8]) -> (r: Result<I128>) {
        match Chunk::<16>::from_bytes(bytes) {
            Ok(chunk) => Ok(I128::from_be_chunk(chunk)),
            Err(_) => Err(Error::decode_failed()),
        }
    }
}

} // verus!
