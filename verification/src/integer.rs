//! Aligned, endian-aware integer types that can be decoded from bytes.
//!
//! Each type wraps an integer stored in the host's native byte order. The hosts this
//! crate targets are little endian, so a stored value reads back unchanged in little
//! endian byte order and with its bytes reversed in big endian byte order.
use vstd::prelude::*;

use crate::chunk::Chunk;
use crate::encoding::{
    bytes_of, lemma_pow256_widths, read_uint, reverse_bytes, swap_bytes, to_signed,
    to_unsigned, value_of, write_uint,
};
use crate::endian::{
    i128_from_bits, i128_to_bits, i16_from_bits, i16_to_bits, i32_from_bits, i32_to_bits,
    i64_from_bits, i64_to_bits, i8_from_bits, i8_to_bits, Endian,
};
use crate::error::{Error, Result};
use crate::shims::{FromInner, IntoInner};

verus! {

/// The value of `v`, a `n`-byte integer, with the order of its bytes reversed.
pub open spec fn swapped_unsigned(v: nat, n: nat) -> nat {
    swap_bytes(v, n)
}

/// The value of `v`, a signed `n`-byte integer, with the order of its bytes reversed.
pub open spec fn swapped_signed(v: int, n: nat) -> int {
    to_signed(swap_bytes(to_unsigned(v, n), n), n)
}

/// Integer types that expose the value stored in them.
pub trait Integer: Sized {
    /// The integer primitive that holds the value.
    type Repr;

    /// The stored value, as held in memory.
    spec fn spec_repr(&self) -> Self::Repr;

    /// The stored value, as an integer.
    spec fn spec_value(&self) -> int;

    /// Returns `true` if the stored value is zero.
    fn is_zero(&self) -> (b: bool)
        ensures
            b == (self.spec_value() == 0),
    ;

    /// Gets the stored value.
    fn value(&self) -> (r: Self::Repr)
        ensures
            r == self.spec_repr(),
    ;
}

impl Integer for u8 {
    type Repr = u8;

    open spec fn spec_repr(&self) -> u8 {
        *self
    }

    open spec fn spec_value(&self) -> int {
        *self as int
    }

    fn is_zero(&self) -> (b: bool) {
        *self == 0
    }

    fn value(&self) -> (r: u8) {
        *self
    }
}

impl Integer for u16 {
    type Repr = u16;

    open spec fn spec_repr(&self) -> u16 {
        *self
    }

    open spec fn spec_value(&self) -> int {
        *self as int
    }

    fn is_zero(&self) -> (b: bool) {
        *self == 0
    }

    fn value(&self) -> (r: u16) {
        *self
    }
}

impl Integer for u32 {
    type Repr = u32;

    open spec fn spec_repr(&self) -> u32 {
        *self
    }

    open spec fn spec_value(&self) -> int {
        *self as int
    }

    fn is_zero(&self) -> (b: bool) {
        *self == 0
    }

    fn value(&self) -> (r: u32) {
        *self
    }
}

impl Integer for u64 {
    type Repr = u64;

    open spec fn spec_repr(&self) -> u64 {
        *self
    }

    open spec fn spec_value(&self) -> int {
        *self as int
    }

    fn is_zero(&self) -> (b: bool) {
        *self == 0
    }

    fn value(&self) -> (r: u64) {
        *self
    }
}

impl Integer for u128 {
    type Repr = u128;

    open spec fn spec_repr(&self) -> u128 {
        *self
    }

    open spec fn spec_value(&self) -> int {
        *self as int
    }

    fn is_zero(&self) -> (b: bool) {
        *self == 0
    }

    fn value(&self) -> (r: u128) {
        *self
    }
}

impl Integer for i8 {
    type Repr = i8;

    open spec fn spec_repr(&self) -> i8 {
        *self
    }

    open spec fn spec_value(&self) -> int {
        *self as int
    }

    fn is_zero(&self) -> (b: bool) {
        *self == 0
    }

    fn value(&self) -> (r: i8) {
        *self
    }
}

impl Integer for i16 {
    type Repr = i16;

    open spec fn spec_repr(&self) -> i16 {
        *self
    }

    open spec fn spec_value(&self) -> int {
        *self as int
    }

    fn is_zero(&self) -> (b: bool) {
        *self == 0
    }

    fn value(&self) -> (r: i16) {
        *self
    }
}

impl Integer for i32 {
    type Repr = i32;

    open spec fn spec_repr(&self) -> i32 {
        *self
    }

    open spec fn spec_value(&self) -> int {
        *self as int
    }

    fn is_zero(&self) -> (b: bool) {
        *self == 0
    }

    fn value(&self) -> (r: i32) {
        *self
    }
}

impl Integer for i64 {
    type Repr = i64;

    open spec fn spec_repr(&self) -> i64 {
        *self
    }

    open spec fn spec_value(&self) -> int {
        *self as int
    }

    fn is_zero(&self) -> (b: bool) {
        *self == 0
    }

    fn value(&self) -> (r: i64) {
        *self
    }
}

impl Integer for i128 {
    type Repr = i128;

    open spec fn spec_repr(&self) -> i128 {
        *self
    }

    open spec fn spec_value(&self) -> int {
        *self as int
    }

    fn is_zero(&self) -> (b: bool) {
        *self == 0
    }

    fn value(&self) -> (r: i128) {
        *self
    }
}

/// A signed, 8-bit integer type, stored in native (little endian) byte order.
#[derive(Clone, Copy, Debug, Default, PartialEq, Eq, Hash, PartialOrd, Ord)]
pub struct I8(i8);

impl View for I8 {
    type V = i8;

    closed spec fn view(&self) -> i8 {
        self.0
    }
}

/// Reverses the byte order of a `i8`.
fn swap_i8(x: i8) -> (y: i8)
    ensures
        y as int == swapped_signed(x as int, 1),
{
    proof {
        lemma_pow256_widths();
    }
    let v = reverse_bytes(i8_to_bits(x) as u128, 1);
    i8_from_bits(v as u8)
}

impl I8 {
    /// The value whose stored integer is `value`.
    pub closed spec fn spec_from_inner(value: i8) -> I8 {
        I8(value)
    }

    /// Creates a new [`I8`] from an integer value in native byte order.
    pub fn new(value: i8) -> (r: Self)
        ensures
            r@ == value,
            r == Self::spec_from_inner(value),
    {
        Self::new_le(value)
    }

    /// Creates a new [`I8`] from a big endian integer value.
    pub fn new_be(value: i8) -> (r: Self)
        ensures
            r@ as int == swapped_signed(value as int, 1),
    {
        I8(swap_i8(value))
    }

    /// Creates a new [`I8`] from an integer, interpreting it as little endian byte
    /// order.
    pub fn new_le(value: i8) -> (r: Self)
        ensures
            r@ == value,
            r == Self::spec_from_inner(value),
    {
        I8(value)
    }

    /// Reads a new [`I8`] in little endian byte order from a chunk of 1 byte(s).
    pub fn from_le_chunk(chunk: Chunk<1>) -> (r: Self)
        ensures
            r@ as int == to_signed(value_of(chunk@, Endian::Little), 1),
    {
        Self::from_le_bytes(chunk.into_array())
    }

    /// Reads a new [`I8`] in big endian byte order from a chunk of 1 byte(s).
    pub fn from_be_chunk(chunk: Chunk<1>) -> (r: Self)
        ensures
            r@ as int == to_signed(value_of(chunk@, Endian::Big), 1),
    {
        Self::from_be_bytes(chunk.into_array())
    }

    /// Creates a value from its representation as a byte array in little endian byte
    /// order.
    pub fn from_le_bytes(bytes: [u8; 1]) -> (r: Self)
        ensures
            r@ as int == to_signed(value_of(bytes@, Endian::Little), 1),
    {
        proof {
            lemma_pow256_widths();
        }
        let v = read_uint(bytes.as_slice(), 1, Endian::Little);
        assert(bytes@.subrange(0, 1) =~= bytes@);
        I8(i8_from_bits(v as u8))
    }

    /// Creates a value from its representation as a byte array in big endian byte
    /// order.
    pub fn from_be_bytes(bytes: [u8; 1]) -> (r: Self)
        ensures
            r@ as int == to_signed(value_of(bytes@, Endian::Big), 1),
    {
        proof {
            lemma_pow256_widths();
        }
        let v = read_uint(bytes.as_slice(), 1, Endian::Big);
        assert(bytes@.subrange(0, 1) =~= bytes@);
        I8(i8_from_bits(v as u8))
    }

    /// Returns the memory representation of this integer as a byte array in little
    /// endian byte order.
    pub fn to_le_bytes(self) -> (a: [u8; 1])
        ensures
            a@ == bytes_of(to_unsigned(self@ as int, 1), 1, Endian::Little),
    {
        let mut a = [0u8; 1];
        write_uint(&mut a, i8_to_bits(self.0) as u128, 1, Endian::Little);
        a
    }

    /// Returns the memory representation of this integer as a byte array in big
    /// endian byte order.
    pub fn to_be_bytes(self) -> (a: [u8; 1])
        ensures
            a@ == bytes_of(to_unsigned(self@ as int, 1), 1, Endian::Big),
    {
        let mut a = [0u8; 1];
        write_uint(&mut a, i8_to_bits(self.0) as u128, 1, Endian::Big);
        a
    }

    /// Gets the stored integer read in the specified byte order.
    pub fn get(self, endian: Endian) -> (v: i8)
        ensures
            endian == Endian::Little ==> v == self@,
            endian == Endian::Big ==> v as int == swapped_signed(self@ as int, 1),
    {
        match endian {
            Endian::Big => swap_i8(self.0),
            Endian::Little => self.0,
        }
    }

    /// Gets the stored integer in native byte order.
    pub fn get_ne(self) -> (v: i8)
        ensures
            v == self@,
    {
        self.0
    }

    /// Gets the stored integer in little endian byte order.
    pub fn get_le(self) -> (v: i8)
        ensures
            v == self@,
    {
        self.0
    }

    /// Gets the stored integer in big endian byte order.
    pub fn get_be(self) -> (v: i8)
        ensures
            v as int == swapped_signed(self@ as int, 1),
    {
        swap_i8(self.0)
    }

    /// Reads a [`I8`] from the first 1 byte(s) of `bytes` in byte order `endian`.
    ///
    /// # Errors
    ///
    /// Returns an out-of-bounds error if `bytes` holds fewer than 1 byte(s).
    pub fn read_aligned(bytes: &[u8], endian: Endian) -> (r: Result<I8>)
        ensures
            r is Ok <==> bytes@.len() >= 1,
            r matches Ok(x) ==> x@ as int == to_signed(value_of(bytes@.subrange(0, 1), endian), 1),
            r matches Err(e) ==> e == Error::spec_out_of_bounds(1, bytes@.len() as usize),
    {
        match Chunk::<1>::from_bytes(bytes) {
            Ok(chunk) => match endian {
                Endian::Big => Ok(Self::from_be_chunk(chunk)),
                Endian::Little => Ok(Self::from_le_chunk(chunk)),
            },
            Err(err) => Err(err),
        }
    }

    /// Reads a [`I8`] in little endian byte order from the first 1 byte(s) of
    /// `bytes`, returning it with the bytes that follow.
    ///
    /// # Errors
    ///
    /// Returns an out-of-bounds error if `bytes` holds fewer than 1 byte(s).
    pub fn read_bytes(bytes: &[u8]) -> (r: Result<(I8, &[u8])>)
        ensures
            r is Ok <==> bytes@.len() >= 1,
            r matches Ok((x, tail)) ==> x@ as int == to_signed(value_of(bytes@.subrange(0, 1), Endian::Little), 1)
                && tail@ == bytes@.subrange(1, bytes@.len() as int),
            r matches Err(e) ==> e == Error::spec_out_of_bounds(1, bytes@.len() as usize),
    {
        match Chunk::<1>::from_bytes(bytes) {
            Ok(chunk) => {
                let tail = vstd::slice::slice_subrange(bytes, 1, bytes.len());
                Ok((Self::from_le_chunk(chunk), tail))
            },
            Err(err) => Err(err),
        }
    }

    /// Reads a [`I8`] in little endian byte order from the first 1 byte(s) of
    /// `bytes`.
    ///
    /// # Errors
    ///
    /// Returns a size-mismatch error if `bytes` holds fewer than 1 byte(s).
    pub fn from_bytes(bytes: &[u8]) -> (r: Result<I8>)
        ensures
            r is Ok <==> bytes@.len() >= 1,
            r matches Ok(x) ==> x@ as int == to_signed(value_of(bytes@.subrange(0, 1), Endian::Little), 1),
            r matches Err(e) ==> e == Error::spec_size_mismatch(1, bytes@.len() as usize),
    {
        if bytes.len() < 1 {
            return Err(Error::size_mismatch(1, bytes.len()));
        }
        match Chunk::<1>::from_bytes(bytes) {
            Ok(chunk) => Ok(Self::from_le_chunk(chunk)),
            Err(err) => Err(err),
        }
    }
}

impl Integer for I8 {
    type Repr = i8;

    closed spec fn spec_repr(&self) -> i8 {
        self.0
    }

    closed spec fn spec_value(&self) -> int {
        self.0 as int
    }

    fn is_zero(&self) -> (b: bool) {
        self.0 == 0
    }

    fn value(&self) -> (r: i8) {
        self.0
    }
}

impl From<i8> for I8 {
    fn from(value: i8) -> (r: I8)
        ensures
            r@ == value,
            r == I8::spec_from_inner(value),
    {
        I8(value)
    }
}

impl vstd::std_specs::convert::FromSpecImpl<i8> for I8 {
    open spec fn obeys_from_spec() -> bool {
        true
    }

    closed spec fn from_spec(value: i8) -> I8 {
        I8(value)
    }
}

impl From<I8> for i8 {
    fn from(value: I8) -> (r: i8)
        ensures
            r == value@,
    {
        value.get_le()
    }
}

impl vstd::std_specs::convert::FromSpecImpl<I8> for i8 {
    open spec fn obeys_from_spec() -> bool {
        true
    }

    open spec fn from_spec(value: I8) -> i8 {
        value@
    }
}

impl FromInner<i8> for I8 {
    /// Wraps `inner` the way [`I8::new_be`] does: its bytes are stored in reverse
    /// order.
    fn from_inner(inner: i8) -> (r: I8)
        ensures
            r@ as int == swapped_signed(inner as int, 1),
    {
        Self::new_be(inner)
    }
}

impl IntoInner<i8> for I8 {
    /// Returns the stored value, read in little endian byte order.
    fn into_inner(self) -> (r: i8)
        ensures
            r == self@,
    {
        self.get_le()
    }
}

impl I8 {
    /// Law: the value that an [`Integer`] read of `x` gives, [`Integer::value`], is the
    /// value stored in `x`: the one that [`I8::get_ne`], [`I8::get_le`] and
    /// dereferencing give.
    pub proof fn lemma_value_is_stored(x: I8)
        ensures
            x.spec_repr() == x@,
            x.spec_value() == x@ as int,
    {
    }

    /// Law: the value built around `value` stores `value`.
    pub proof fn lemma_from_inner_stores(value: i8)
        ensures
            I8::spec_from_inner(value)@ == value,
    {
    }
}

impl core::ops::Deref for I8 {
    type Target = i8;

    /// Borrows the stored value.
    fn deref(&self) -> (v: &i8)
        ensures
            *v == self@,
    {
        &self.0
    }
}

/// A signed, 16-bit integer type, stored in native (little endian) byte order.
#[derive(Clone, Copy, Debug, Default, PartialEq, Eq, Hash, PartialOrd, Ord)]
pub struct I16(i16);

impl View for I16 {
    type V = i16;

    closed spec fn view(&self) -> i16 {
        self.0
    }
}

/// Reverses the byte order of a `i16`.
fn swap_i16(x: i16) -> (y: i16)
    ensures
        y as int == swapped_signed(x as int, 2),
{
    proof {
        lemma_pow256_widths();
    }
    let v = reverse_bytes(i16_to_bits(x) as u128, 2);
    i16_from_bits(v as u16)
}

impl I16 {
    /// The value whose stored integer is `value`.
    pub closed spec fn spec_from_inner(value: i16) -> I16 {
        I16(value)
    }

    /// Creates a new [`I16`] from an integer value in native byte order.
    pub fn new(value: i16) -> (r: Self)
        ensures
            r@ == value,
            r == Self::spec_from_inner(value),
    {
        Self::new_le(value)
    }

    /// Creates a new [`I16`] from a big endian integer value.
    pub fn new_be(value: i16) -> (r: Self)
        ensures
            r@ as int == swapped_signed(value as int, 2),
    {
        I16(swap_i16(value))
    }

    /// Creates a new [`I16`] from an integer, interpreting it as little endian byte
    /// order.
    pub fn new_le(value: i16) -> (r: Self)
        ensures
            r@ == value,
            r == Self::spec_from_inner(value),
    {
        I16(value)
    }

    /// Reads a new [`I16`] in little endian byte order from a chunk of 2 byte(s).
    pub fn from_le_chunk(chunk: Chunk<2>) -> (r: Self)
        ensures
            r@ as int == to_signed(value_of(chunk@, Endian::Little), 2),
    {
        Self::from_le_bytes(chunk.into_array())
    }

    /// Reads a new [`I16`] in big endian byte order from a chunk of 2 byte(s).
    pub fn from_be_chunk(chunk: Chunk<2>) -> (r: Self)
        ensures
            r@ as int == to_signed(value_of(chunk@, Endian::Big), 2),
    {
        Self::from_be_bytes(chunk.into_array())
    }

    /// Creates a value from its representation as a byte array in little endian byte
    /// order.
    pub fn from_le_bytes(bytes: [u8; 2]) -> (r: Self)
        ensures
            r@ as int == to_signed(value_of(bytes@, Endian::Little), 2),
    {
        proof {
            lemma_pow256_widths();
        }
        let v = read_uint(bytes.as_slice(), 2, Endian::Little);
        assert(bytes@.subrange(0, 2) =~= bytes@);
        I16(i16_from_bits(v as u16))
    }

    /// Creates a value from its representation as a byte array in big endian byte
    /// order.
    pub fn from_be_bytes(bytes: [u8; 2]) -> (r: Self)
        ensures
            r@ as int == to_signed(value_of(bytes@, Endian::Big), 2),
    {
        proof {
            lemma_pow256_widths();
        }
        let v = read_uint(bytes.as_slice(), 2, Endian::Big);
        assert(bytes@.subrange(0, 2) =~= bytes@);
        I16(i16_from_bits(v as u16))
    }

    /// Returns the memory representation of this integer as a byte array in little
    /// endian byte order.
    pub fn to_le_bytes(self) -> (a: [u8; 2])
        ensures
            a@ == bytes_of(to_unsigned(self@ as int, 2), 2, Endian::Little),
    {
        let mut a = [0u8; 2];
        write_uint(&mut a, i16_to_bits(self.0) as u128, 2, Endian::Little);
        a
    }

    /// Returns the memory representation of this integer as a byte array in big
    /// endian byte order.
    pub fn to_be_bytes(self) -> (a: [u8; 2])
        ensures
            a@ == bytes_of(to_unsigned(self@ as int, 2), 2, Endian::Big),
    {
        let mut a = [0u8; 2];
        write_uint(&mut a, i16_to_bits(self.0) as u128, 2, Endian::Big);
        a
    }

    /// Gets the stored integer read in the specified byte order.
    pub fn get(self, endian: Endian) -> (v: i16)
        ensures
            endian == Endian::Little ==> v == self@,
            endian == Endian::Big ==> v as int == swapped_signed(self@ as int, 2),
    {
        match endian {
            Endian::Big => swap_i16(self.0),
            Endian::Little => self.0,
        }
    }

    /// Gets the stored integer in native byte order.
    pub fn get_ne(self) -> (v: i16)
        ensures
            v == self@,
    {
        self.0
    }

    /// Gets the stored integer in little endian byte order.
    pub fn get_le(self) -> (v: i16)
        ensures
            v == self@,
    {
        self.0
    }

    /// Gets the stored integer in big endian byte order.
    pub fn get_be(self) -> (v: i16)
        ensures
            v as int == swapped_signed(self@ as int, 2),
    {
        swap_i16(self.0)
    }

    /// Reads a [`I16`] from the first 2 byte(s) of `bytes` in byte order `endian`.
    ///
    /// # Errors
    ///
    /// Returns an out-of-bounds error if `bytes` holds fewer than 2 byte(s).
    pub fn read_aligned(bytes: &[u8], endian: Endian) -> (r: Result<I16>)
        ensures
            r is Ok <==> bytes@.len() >= 2,
            r matches Ok(x) ==> x@ as int == to_signed(value_of(bytes@.subrange(0, 2), endian), 2),
            r matches Err(e) ==> e == Error::spec_out_of_bounds(2, bytes@.len() as usize),
    {
        match Chunk::<2>::from_bytes(bytes) {
            Ok(chunk) => match endian {
                Endian::Big => Ok(Self::from_be_chunk(chunk)),
                Endian::Little => Ok(Self::from_le_chunk(chunk)),
            },
            Err(err) => Err(err),
        }
    }

    /// Reads a [`I16`] in little endian byte order from the first 2 byte(s) of
    /// `bytes`, returning it with the bytes that follow.
    ///
    /// # Errors
    ///
    /// Returns an out-of-bounds error if `bytes` holds fewer than 2 byte(s).
    pub fn read_bytes(bytes: &[u8]) -> (r: Result<(I16, &[u8])>)
        ensures
            r is Ok <==> bytes@.len() >= 2,
            r matches Ok((x, tail)) ==> x@ as int == to_signed(value_of(bytes@.subrange(0, 2), Endian::Little), 2)
                && tail@ == bytes@.subrange(2, bytes@.len() as int),
            r matches Err(e) ==> e == Error::spec_out_of_bounds(2, bytes@.len() as usize),
    {
        match Chunk::<2>::from_bytes(bytes) {
            Ok(chunk) => {
                let tail = vstd::slice::slice_subrange(bytes, 2, bytes.len());
                Ok((Self::from_le_chunk(chunk), tail))
            },
            Err(err) => Err(err),
        }
    }

    /// Reads a [`I16`] in little endian byte order from the first 2 byte(s) of
    /// `bytes`.
    ///
    /// # Errors
    ///
    /// Returns a size-mismatch error if `bytes` holds fewer than 2 byte(s).
    pub fn from_bytes(bytes: &[u8]) -> (r: Result<I16>)
        ensures
            r is Ok <==> bytes@.len() >= 2,
            r matches Ok(x) ==> x@ as int == to_signed(value_of(bytes@.subrange(0, 2), Endian::Little), 2),
            r matches Err(e) ==> e == Error::spec_size_mismatch(2, bytes@.len() as usize),
    {
        if bytes.len() < 2 {
            return Err(Error::size_mismatch(2, bytes.len()));
        }
        match Chunk::<2>::from_bytes(bytes) {
            Ok(chunk) => Ok(Self::from_le_chunk(chunk)),
            Err(err) => Err(err),
        }
    }
}

impl Integer for I16 {
    type Repr = i16;

    closed spec fn spec_repr(&self) -> i16 {
        self.0
    }

    closed spec fn spec_value(&self) -> int {
        self.0 as int
    }

    fn is_zero(&self) -> (b: bool) {
        self.0 == 0
    }

    fn value(&self) -> (r: i16) {
        self.0
    }
}

impl From<i16> for I16 {
    fn from(value: i16) -> (r: I16)
        ensures
            r@ == value,
            r == I16::spec_from_inner(value),
    {
        I16(value)
    }
}

impl vstd::std_specs::convert::FromSpecImpl<i16> for I16 {
    open spec fn obeys_from_spec() -> bool {
        true
    }

    closed spec fn from_spec(value: i16) -> I16 {
        I16(value)
    }
}

impl From<I16> for i16 {
    fn from(value: I16) -> (r: i16)
        ensures
            r == value@,
    {
        value.get_le()
    }
}

impl vstd::std_specs::convert::FromSpecImpl<I16> for i16 {
    open spec fn obeys_from_spec() -> bool {
        true
    }

    open spec fn from_spec(value: I16) -> i16 {
        value@
    }
}

impl FromInner<i16> for I16 {
    /// Wraps `inner` the way [`I16::new_be`] does: its bytes are stored in reverse
    /// order.
    fn from_inner(inner: i16) -> (r: I16)
        ensures
            r@ as int == swapped_signed(inner as int, 2),
    {
        Self::new_be(inner)
    }
}

impl IntoInner<i16> for I16 {
    /// Returns the stored value, read in little endian byte order.
    fn into_inner(self) -> (r: i16)
        ensures
            r == self@,
    {
        self.get_le()
    }
}

impl I16 {
    /// Law: the value that an [`Integer`] read of `x` gives, [`Integer::value`], is the
    /// value stored in `x`: the one that [`I16::get_ne`], [`I16::get_le`] and
    /// dereferencing give.
    pub proof fn lemma_value_is_stored(x: I16)
        ensures
            x.spec_repr() == x@,
            x.spec_value() == x@ as int,
    {
    }

    /// Law: the value built around `value` stores `value`.
    pub proof fn lemma_from_inner_stores(value: i16)
        ensures
            I16::spec_from_inner(value)@ == value,
    {
    }
}

impl core::ops::Deref for I16 {
    type Target = i16;

    /// Borrows the stored value.
    fn deref(&self) -> (v: &i16)
        ensures
            *v == self@,
    {
        &self.0
    }
}

/// A signed, 32-bit integer type, stored in native (little endian) byte order.
#[derive(Clone, Copy, Debug, Default, PartialEq, Eq, Hash, PartialOrd, Ord)]
pub struct I32(i32);

impl View for I32 {
    type V = i32;

    closed spec fn view(&self) -> i32 {
        self.0
    }
}

/// Reverses the byte order of a `i32`.
fn swap_i32(x: i32) -> (y: i32)
    ensures
        y as int == swapped_signed(x as int, 4),
{
    proof {
        lemma_pow256_widths();
    }
    let v = reverse_bytes(i32_to_bits(x) as u128, 4);
    i32_from_bits(v as u32)
}

impl I32 {
    /// The value whose stored integer is `value`.
    pub closed spec fn spec_from_inner(value: i32) -> I32 {
        I32(value)
    }

    /// Creates a new [`I32`] from an integer value in native byte order.
    pub fn new(value: i32) -> (r: Self)
        ensures
            r@ == value,
            r == Self::spec_from_inner(value),
    {
        Self::new_le(value)
    }

    /// Creates a new [`I32`] from a big endian integer value.
    pub fn new_be(value: i32) -> (r: Self)
        ensures
            r@ as int == swapped_signed(value as int, 4),
    {
        I32(swap_i32(value))
    }

    /// Creates a new [`I32`] from an integer, interpreting it as little endian byte
    /// order.
    pub fn new_le(value: i32) -> (r: Self)
        ensures
            r@ == value,
            r == Self::spec_from_inner(value),
    {
        I32(value)
    }

    /// Reads a new [`I32`] in little endian byte order from a chunk of 4 byte(s).
    pub fn from_le_chunk(chunk: Chunk<4>) -> (r: Self)
        ensures
            r@ as int == to_signed(value_of(chunk@, Endian::Little), 4),
    {
        Self::from_le_bytes(chunk.into_array())
    }

    /// Reads a new [`I32`] in big endian byte order from a chunk of 4 byte(s).
    pub fn from_be_chunk(chunk: Chunk<4>) -> (r: Self)
        ensures
            r@ as int == to_signed(value_of(chunk@, Endian::Big), 4),
    {
        Self::from_be_bytes(chunk.into_array())
    }

    /// Creates a value from its representation as a byte array in little endian byte
    /// order.
    pub fn from_le_bytes(bytes: [u8; 4]) -> (r: Self)
        ensures
            r@ as int == to_signed(value_of(bytes@, Endian::Little), 4),
    {
        proof {
            lemma_pow256_widths();
        }
        let v = read_uint(bytes.as_slice(), 4, Endian::Little);
        assert(bytes@.subrange(0, 4) =~= bytes@);
        I32(i32_from_bits(v as u32))
    }

    /// Creates a value from its representation as a byte array in big endian byte
    /// order.
    pub fn from_be_bytes(bytes: [u8; 4]) -> (r: Self)
        ensures
            r@ as int == to_signed(value_of(bytes@, Endian::Big), 4),
    {
        proof {
            lemma_pow256_widths();
        }
        let v = read_uint(bytes.as_slice(), 4, Endian::Big);
        assert(bytes@.subrange(0, 4) =~= bytes@);
        I32(i32_from_bits(v as u32))
    }

    /// Returns the memory representation of this integer as a byte array in little
    /// endian byte order.
    pub fn to_le_bytes(self) -> (a: [u8; 4])
        ensures
            a@ == bytes_of(to_unsigned(self@ as int, 4), 4, Endian::Little),
    {
        let mut a = [0u8; 4];
        write_uint(&mut a, i32_to_bits(self.0) as u128, 4, Endian::Little);
        a
    }

    /// Returns the memory representation of this integer as a byte array in big
    /// endian byte order.
    pub fn to_be_bytes(self) -> (a: [u8; 4])
        ensures
            a@ == bytes_of(to_unsigned(self@ as int, 4), 4, Endian::Big),
    {
        let mut a = [0u8; 4];
        write_uint(&mut a, i32_to_bits(self.0) as u128, 4, Endian::Big);
        a
    }

    /// Gets the stored integer read in the specified byte order.
    pub fn get(self, endian: Endian) -> (v: i32)
        ensures
            endian == Endian::Little ==> v == self@,
            endian == Endian::Big ==> v as int == swapped_signed(self@ as int, 4),
    {
        match endian {
            Endian::Big => swap_i32(self.0),
            Endian::Little => self.0,
        }
    }

    /// Gets the stored integer in native byte order.
    pub fn get_ne(self) -> (v: i32)
        ensures
            v == self@,
    {
        self.0
    }

    /// Gets the stored integer in little endian byte order.
    pub fn get_le(self) -> (v: i32)
        ensures
            v == self@,
    {
        self.0
    }

    /// Gets the stored integer in big endian byte order.
    pub fn get_be(self) -> (v: i32)
        ensures
            v as int == swapped_signed(self@ as int, 4),
    {
        swap_i32(self.0)
    }

    /// Reads a [`I32`] from the first 4 byte(s) of `bytes` in byte order `endian`.
    ///
    /// # Errors
    ///
    /// Returns an out-of-bounds error if `bytes` holds fewer than 4 byte(s).
    pub fn read_aligned(bytes: &[u8], endian: Endian) -> (r: Result<I32>)
        ensures
            r is Ok <==> bytes@.len() >= 4,
            r matches Ok(x) ==> x@ as int == to_signed(value_of(bytes@.subrange(0, 4), endian), 4),
            r matches Err(e) ==> e == Error::spec_out_of_bounds(4, bytes@.len() as usize),
    {
        match Chunk::<4>::from_bytes(bytes) {
            Ok(chunk) => match endian {
                Endian::Big => Ok(Self::from_be_chunk(chunk)),
                Endian::Little => Ok(Self::from_le_chunk(chunk)),
            },
            Err(err) => Err(err),
        }
    }

    /// Reads a [`I32`] in little endian byte order from the first 4 byte(s) of
    /// `bytes`, returning it with the bytes that follow.
    ///
    /// # Errors
    ///
    /// Returns an out-of-bounds error if `bytes` holds fewer than 4 byte(s).
    pub fn read_bytes(bytes: &[u8]) -> (r: Result<(I32, &[u8])>)
        ensures
            r is Ok <==> bytes@.len() >= 4,
            r matches Ok((x, tail)) ==> x@ as int == to_signed(value_of(bytes@.subrange(0, 4), Endian::Little), 4)
                && tail@ == bytes@.subrange(4, bytes@.len() as int),
            r matches Err(e) ==> e == Error::spec_out_of_bounds(4, bytes@.len() as usize),
    {
        match Chunk::<4>::from_bytes(bytes) {
            Ok(chunk) => {
                let tail = vstd::slice::slice_subrange(bytes, 4, bytes.len());
                Ok((Self::from_le_chunk(chunk), tail))
            },
            Err(err) => Err(err),
        }
    }

    /// Reads a [`I32`] in little endian byte order from the first 4 byte(s) of
    /// `bytes`.
    ///
    /// # Errors
    ///
    /// Returns a size-mismatch error if `bytes` holds fewer than 4 byte(s).
    pub fn from_bytes(bytes: &[u8]) -> (r: Result<I32>)
        ensures
            r is Ok <==> bytes@.len() >= 4,
            r matches Ok(x) ==> x@ as int == to_signed(value_of(bytes@.subrange(0, 4), Endian::Little), 4),
            r matches Err(e) ==> e == Error::spec_size_mismatch(4, bytes@.len() as usize),
    {
        if bytes.len() < 4 {
            return Err(Error::size_mismatch(4, bytes.len()));
        }
        match Chunk::<4>::from_bytes(bytes) {
            Ok(chunk) => Ok(Self::from_le_chunk(chunk)),
            Err(err) => Err(err),
        }
    }
}

impl Integer for I32 {
    type Repr = i32;

    closed spec fn spec_repr(&self) -> i32 {
        self.0
    }

    closed spec fn spec_value(&self) -> int {
        self.0 as int
    }

    fn is_zero(&self) -> (b: bool) {
        self.0 == 0
    }

    fn value(&self) -> (r: i32) {
        self.0
    }
}

impl From<i32> for I32 {
    fn from(value: i32) -> (r: I32)
        ensures
            r@ == value,
            r == I32::spec_from_inner(value),
    {
        I32(value)
    }
}

impl vstd::std_specs::convert::FromSpecImpl<i32> for I32 {
    open spec fn obeys_from_spec() -> bool {
        true
    }

    closed spec fn from_spec(value: i32) -> I32 {
        I32(value)
    }
}

impl From<I32> for i32 {
    fn from(value: I32) -> (r: i32)
        ensures
            r == value@,
    {
        value.get_le()
    }
}

impl vstd::std_specs::convert::FromSpecImpl<I32> for i32 {
    open spec fn obeys_from_spec() -> bool {
        true
    }

    open spec fn from_spec(value: I32) -> i32 {
        value@
    }
}

impl FromInner<i32> for I32 {
    /// Wraps `inner` the way [`I32::new_be`] does: its bytes are stored in reverse
    /// order.
    fn from_inner(inner: i32) -> (r: I32)
        ensures
            r@ as int == swapped_signed(inner as int, 4),
    {
        Self::new_be(inner)
    }
}

impl IntoInner<i32> for I32 {
    /// Returns the stored value, read in little endian byte order.
    fn into_inner(self) -> (r: i32)
        ensures
            r == self@,
    {
        self.get_le()
    }
}

impl I32 {
    /// Law: the value that an [`Integer`] read of `x` gives, [`Integer::value`], is the
    /// value stored in `x`: the one that [`I32::get_ne`], [`I32::get_le`] and
    /// dereferencing give.
    pub proof fn lemma_value_is_stored(x: I32)
        ensures
            x.spec_repr() == x@,
            x.spec_value() == x@ as int,
    {
    }

    /// Law: the value built around `value` stores `value`.
    pub proof fn lemma_from_inner_stores(value: i32)
        ensures
            I32::spec_from_inner(value)@ == value,
    {
    }
}

impl core::ops::Deref for I32 {
    type Target = i32;

    /// Borrows the stored value.
    fn deref(&self) -> (v: &i32)
        ensures
            *v == self@,
    {
        &self.0
    }
}

/// A signed, 64-bit integer type, stored in native (little endian) byte order.
#[derive(Clone, Copy, Debug, Default, PartialEq, Eq, Hash, PartialOrd, Ord)]
pub struct I64(i64);

impl View for I64 {
    type V = i64;

    closed spec fn view(&self) -> i64 {
        self.0
    }
}

/// Reverses the byte order of a `i64`.
fn swap_i64(x: i64) -> (y: i64)
    ensures
        y as int == swapped_signed(x as int, 8),
{
    proof {
        lemma_pow256_widths();
    }
    let v = reverse_bytes(i64_to_bits(x) as u128, 8);
    i64_from_bits(v as u64)
}

impl I64 {
    /// The value whose stored integer is `value`.
    pub closed spec fn spec_from_inner(value: i64) -> I64 {
        I64(value)
    }

    /// Creates a new [`I64`] from an integer value in native byte order.
    pub fn new(value: i64) -> (r: Self)
        ensures
            r@ == value,
            r == Self::spec_from_inner(value),
    {
        Self::new_le(value)
    }

    /// Creates a new [`I64`] from a big endian integer value.
    pub fn new_be(value: i64) -> (r: Self)
        ensures
            r@ as int == swapped_signed(value as int, 8),
    {
        I64(swap_i64(value))
    }

    /// Creates a new [`I64`] from an integer, interpreting it as little endian byte
    /// order.
    pub fn new_le(value: i64) -> (r: Self)
        ensures
            r@ == value,
            r == Self::spec_from_inner(value),
    {
        I64(value)
    }

    /// Reads a new [`I64`] in little endian byte order from a chunk of 8 byte(s).
    pub fn from_le_chunk(chunk: Chunk<8>) -> (r: Self)
        ensures
            r@ as int == to_signed(value_of(chunk@, Endian::Little), 8),
    {
        Self::from_le_bytes(chunk.into_array())
    }

    /// Reads a new [`I64`] in big endian byte order from a chunk of 8 byte(s).
    pub fn from_be_chunk(chunk: Chunk<8>) -> (r: Self)
        ensures
            r@ as int == to_signed(value_of(chunk@, Endian::Big), 8),
    {
        Self::from_be_bytes(chunk.into_array())
    }

    /// Creates a value from its representation as a byte array in little endian byte
    /// order.
    pub fn from_le_bytes(bytes: [u8; 8]) -> (r: Self)
        ensures
            r@ as int == to_signed(value_of(bytes@, Endian::Little), 8),
    {
        proof {
            lemma_pow256_widths();
        }
        let v = read_uint(bytes.as_slice(), 8, Endian::Little);
        assert(bytes@.subrange(0, 8) =~= bytes@);
        I64(i64_from_bits(v as u64))
    }

    /// Creates a value from its representation as a byte array in big endian byte
    /// order.
    pub fn from_be_bytes(bytes: [u8; 8]) -> (r: Self)
        ensures
            r@ as int == to_signed(value_of(bytes@, Endian::Big), 8),
    {
        proof {
            lemma_pow256_widths();
        }
        let v = read_uint(bytes.as_slice(), 8, Endian::Big);
        assert(bytes@.subrange(0, 8) =~= bytes@);
        I64(i64_from_bits(v as u64))
    }

    /// Returns the memory representation of this integer as a byte array in little
    /// endian byte order.
    pub fn to_le_bytes(self) -> (a: [u8; 8])
        ensures
            a@ == bytes_of(to_unsigned(self@ as int, 8), 8, Endian::Little),
    {
        let mut a = [0u8; 8];
        write_uint(&mut a, i64_to_bits(self.0) as u128, 8, Endian::Little);
        a
    }

    /// Returns the memory representation of this integer as a byte array in big
    /// endian byte order.
    pub fn to_be_bytes(self) -> (a: [u8; 8])
        ensures
            a@ == bytes_of(to_unsigned(self@ as int, 8), 8, Endian::Big),
    {
        let mut a = [0u8; 8];
        write_uint(&mut a, i64_to_bits(self.0) as u128, 8, Endian::Big);
        a
    }

    /// Gets the stored integer read in the specified byte order.
    pub fn get(self, endian: Endian) -> (v: i64)
        ensures
            endian == Endian::Little ==> v == self@,
            endian == Endian::Big ==> v as int == swapped_signed(self@ as int, 8),
    {
        match endian {
            Endian::Big => swap_i64(self.0),
            Endian::Little => self.0,
        }
    }

    /// Gets the stored integer in native byte order.
    pub fn get_ne(self) -> (v: i64)
        ensures
            v == self@,
    {
        self.0
    }

    /// Gets the stored integer in little endian byte order.
    pub fn get_le(self) -> (v: i64)
        ensures
            v == self@,
    {
        self.0
    }

    /// Gets the stored integer in big endian byte order.
    pub fn get_be(self) -> (v: i64)
        ensures
            v as int == swapped_signed(self@ as int, 8),
    {
        swap_i64(self.0)
    }

    /// Reads a [`I64`] from the first 8 byte(s) of `bytes` in byte order `endian`.
    ///
    /// # Errors
    ///
    /// Returns an out-of-bounds error if `bytes` holds fewer than 8 byte(s).
    pub fn read_aligned(bytes: &[u8], endian: Endian) -> (r: Result<I64>)
        ensures
            r is Ok <==> bytes@.len() >= 8,
            r matches Ok(x) ==> x@ as int == to_signed(value_of(bytes@.subrange(0, 8), endian), 8),
            r matches Err(e) ==> e == Error::spec_out_of_bounds(8, bytes@.len() as usize),
    {
        match Chunk::<8>::from_bytes(bytes) {
            Ok(chunk) => match endian {
                Endian::Big => Ok(Self::from_be_chunk(chunk)),
                Endian::Little => Ok(Self::from_le_chunk(chunk)),
            },
            Err(err) => Err(err),
        }
    }

    /// Reads a [`I64`] in little endian byte order from the first 8 byte(s) of
    /// `bytes`, returning it with the bytes that follow.
    ///
    /// # Errors
    ///
    /// Returns an out-of-bounds error if `bytes` holds fewer than 8 byte(s).
    pub fn read_bytes(bytes: &[u8]) -> (r: Result<(I64, &[u8])>)
        ensures
            r is Ok <==> bytes@.len() >= 8,
            r matches Ok((x, tail)) ==> x@ as int == to_signed(value_of(bytes@.subrange(0, 8), Endian::Little), 8)
                && tail@ == bytes@.subrange(8, bytes@.len() as int),
            r matches Err(e) ==> e == Error::spec_out_of_bounds(8, bytes@.len() as usize),
    {
        match Chunk::<8>::from_bytes(bytes) {
            Ok(chunk) => {
                let tail = vstd::slice::slice_subrange(bytes, 8, bytes.len());
                Ok((Self::from_le_chunk(chunk), tail))
            },
            Err(err) => Err(err),
        }
    }

    /// Reads a [`I64`] in little endian byte order from the first 8 byte(s) of
    /// `bytes`.
    ///
    /// # Errors
    ///
    /// Returns a size-mismatch error if `bytes` holds fewer than 8 byte(s).
    pub fn from_bytes(bytes: &[u8]) -> (r: Result<I64>)
        ensures
            r is Ok <==> bytes@.len() >= 8,
            r matches Ok(x) ==> x@ as int == to_signed(value_of(bytes@.subrange(0, 8), Endian::Little), 8),
            r matches Err(e) ==> e == Error::spec_size_mismatch(8, bytes@.len() as usize),
    {
        if bytes.len() < 8 {
            return Err(Error::size_mismatch(8, bytes.len()));
        }
        match Chunk::<8>::from_bytes(bytes) {
            Ok(chunk) => Ok(Self::from_le_chunk(chunk)),
            Err(err) => Err(err),
        }
    }
}

impl Integer for I64 {
    type Repr = i64;

    closed spec fn spec_repr(&self) -> i64 {
        self.0
    }

    closed spec fn spec_value(&self) -> int {
        self.0 as int
    }

    fn is_zero(&self) -> (b: bool) {
        self.0 == 0
    }

    fn value(&self) -> (r: i64) {
        self.0
    }
}

impl From<i64> for I64 {
    fn from(value: i64) -> (r: I64)
        ensures
            r@ == value,
            r == I64::spec_from_inner(value),
    {
        I64(value)
    }
}

impl vstd::std_specs::convert::FromSpecImpl<i64> for I64 {
    open spec fn obeys_from_spec() -> bool {
        true
    }

    closed spec fn from_spec(value: i64) -> I64 {
        I64(value)
    }
}

impl From<I64> for i64 {
    fn from(value: I64) -> (r: i64)
        ensures
            r == value@,
    {
        value.get_le()
    }
}

impl vstd::std_specs::convert::FromSpecImpl<I64> for i64 {
    open spec fn obeys_from_spec() -> bool {
        true
    }

    open spec fn from_spec(value: I64) -> i64 {
        value@
    }
}

impl FromInner<i64> for I64 {
    /// Wraps `inner` the way [`I64::new_be`] does: its bytes are stored in reverse
    /// order.
    fn from_inner(inner: i64) -> (r: I64)
        ensures
            r@ as int == swapped_signed(inner as int, 8),
    {
        Self::new_be(inner)
    }
}

impl IntoInner<i64> for I64 {
    /// Returns the stored value, read in little endian byte order.
    fn into_inner(self) -> (r: i64)
        ensures
            r == self@,
    {
        self.get_le()
    }
}

impl I64 {
    /// Law: the value that an [`Integer`] read of `x` gives, [`Integer::value`], is the
    /// value stored in `x`: the one that [`I64::get_ne`], [`I64::get_le`] and
    /// dereferencing give.
    pub proof fn lemma_value_is_stored(x: I64)
        ensures
            x.spec_repr() == x@,
            x.spec_value() == x@ as int,
    {
    }

    /// Law: the value built around `value` stores `value`.
    pub proof fn lemma_from_inner_stores(value: i64)
        ensures
            I64::spec_from_inner(value)@ == value,
    {
    }
}

impl core::ops::Deref for I64 {
    type Target = i64;

    /// Borrows the stored value.
    fn deref(&self) -> (v: &i64)
        ensures
            *v == self@,
    {
        &self.0
    }
}

/// A signed, 128-bit integer type, stored in native (little endian) byte order.
#[derive(Clone, Copy, Debug, Default, PartialEq, Eq, Hash, PartialOrd, Ord)]
pub struct I128(i128);

impl View for I128 {
    type V = i128;

    closed spec fn view(&self) -> i128 {
        self.0
    }
}

/// Reverses the byte order of a `i128`.
fn swap_i128(x: i128) -> (y: i128)
    ensures
        y as int == swapped_signed(x as int, 16),
{
    proof {
        lemma_pow256_widths();
    }
    let v = reverse_bytes(i128_to_bits(x) as u128, 16);
    i128_from_bits(v as u128)
}

impl I128 {
    /// The value whose stored integer is `value`.
    pub closed spec fn spec_from_inner(value: i128) -> I128 {
        I128(value)
    }

    /// Creates a new [`I128`] from an integer value in native byte order.
    pub fn new(value: i128) -> (r: Self)
        ensures
            r@ == value,
            r == Self::spec_from_inner(value),
    {
        Self::new_le(value)
    }

    /// Creates a new [`I128`] from a big endian integer value.
    pub fn new_be(value: i128) -> (r: Self)
        ensures
            r@ as int == swapped_signed(value as int, 16),
    {
        I128(swap_i128(value))
    }

    /// Creates a new [`I128`] from an integer, interpreting it as little endian byte
    /// order.
    pub fn new_le(value: i128) -> (r: Self)
        ensures
            r@ == value,
            r == Self::spec_from_inner(value),
    {
        I128(value)
    }

    /// Reads a new [`I128`] in little endian byte order from a chunk of 16 byte(s).
    pub fn from_le_chunk(chunk: Chunk<16>) -> (r: Self)
        ensures
            r@ as int == to_signed(value_of(chunk@, Endian::Little), 16),
    {
        Self::from_le_bytes(chunk.into_array())
    }

    /// Reads a new [`I128`] in big endian byte order from a chunk of 16 byte(s).
    pub fn from_be_chunk(chunk: Chunk<16>) -> (r: Self)
        ensures
            r@ as int == to_signed(value_of(chunk@, Endian::Big), 16),
    {
        Self::from_be_bytes(chunk.into_array())
    }

    /// Creates a value from its representation as a byte array in little endian byte
    /// order.
    pub fn from_le_bytes(bytes: [u8; 16]) -> (r: Self)
        ensures
            r@ as int == to_signed(value_of(bytes@, Endian::Little), 16),
    {
        proof {
            lemma_pow256_widths();
        }
        let v = read_uint(bytes.as_slice(), 16, Endian::Little);
        assert(bytes@.subrange(0, 16) =~= bytes@);
        I128(i128_from_bits(v as u128))
    }

    /// Creates a value from its representation as a byte array in big endian byte
    /// order.
    pub fn from_be_bytes(bytes: [u8; 16]) -> (r: Self)
        ensures
            r@ as int == to_signed(value_of(bytes@, Endian::Big), 16),
    {
        proof {
            lemma_pow256_widths();
        }
        let v = read_uint(bytes.as_slice(), 16, Endian::Big);
        assert(bytes@.subrange(0, 16) =~= bytes@);
        I128(i128_from_bits(v as u128))
    }

    /// Returns the memory representation of this integer as a byte array in little
    /// endian byte order.
    pub fn to_le_bytes(self) -> (a: [u8; 16])
        ensures
            a@ == bytes_of(to_unsigned(self@ as int, 16), 16, Endian::Little),
    {
        let mut a = [0u8; 16];
        write_uint(&mut a, i128_to_bits(self.0) as u128, 16, Endian::Little);
        a
    }

    /// Returns the memory representation of this integer as a byte array in big
    /// endian byte order.
    pub fn to_be_bytes(self) -> (a: [u8; 16])
        ensures
            a@ == bytes_of(to_unsigned(self@ as int, 16), 16, Endian::Big),
    {
        let mut a = [0u8; 16];
        write_uint(&mut a, i128_to_bits(self.0) as u128, 16, Endian::Big);
        a
    }

    /// Gets the stored integer read in the specified byte order.
    pub fn get(self, endian: Endian) -> (v: i128)
        ensures
            endian == Endian::Little ==> v == self@,
            endian == Endian::Big ==> v as int == swapped_signed(self@ as int, 16),
    {
        match endian {
            Endian::Big => swap_i128(self.0),
            Endian::Little => self.0,
        }
    }

    /// Gets the stored integer in native byte order.
    pub fn get_ne(self) -> (v: i128)
        ensures
            v == self@,
    {
        self.0
    }

    /// Gets the stored integer in little endian byte order.
    pub fn get_le(self) -> (v: i128)
        ensures
            v == self@,
    {
        self.0
    }

    /// Gets the stored integer in big endian byte order.
    pub fn get_be(self) -> (v: i128)
        ensures
            v as int == swapped_signed(self@ as int, 16),
    {
        swap_i128(self.0)
    }

    /// Reads a [`I128`] from the first 16 byte(s) of `bytes` in byte order `endian`.
    ///
    /// # Errors
    ///
    /// Returns an out-of-bounds error if `bytes` holds fewer than 16 byte(s).
    pub fn read_aligned(bytes: &[u8], endian: Endian) -> (r: Result<I128>)
        ensures
            r is Ok <==> bytes@.len() >= 16,
            r matches Ok(x) ==> x@ as int == to_signed(value_of(bytes@.subrange(0, 16), endian), 16),
            r matches Err(e) ==> e == Error::spec_out_of_bounds(16, bytes@.len() as usize),
    {
        match Chunk::<16>::from_bytes(bytes) {
            Ok(chunk) => match endian {
                Endian::Big => Ok(Self::from_be_chunk(chunk)),
                Endian::Little => Ok(Self::from_le_chunk(chunk)),
            },
            Err(err) => Err(err),
        }
    }

    /// Reads a [`I128`] in little endian byte order from the first 16 byte(s) of
    /// `bytes`, returning it with the bytes that follow.
    ///
    /// # Errors
    ///
    /// Returns an out-of-bounds error if `bytes` holds fewer than 16 byte(s).
    pub fn read_bytes(bytes: &[u8]) -> (r: Result<(I128, &[u8])>)
        ensures
            r is Ok <==> bytes@.len() >= 16,
            r matches Ok((x, tail)) ==> x@ as int == to_signed(value_of(bytes@.subrange(0, 16), Endian::Little), 16)
                && tail@ == bytes@.subrange(16, bytes@.len() as int),
            r matches Err(e) ==> e == Error::spec_out_of_bounds(16, bytes@.len() as usize),
    {
        match Chunk::<16>::from_bytes(bytes) {
            Ok(chunk) => {
                let tail = vstd::slice::slice_subrange(bytes, 16, bytes.len());
                Ok((Self::from_le_chunk(chunk), tail))
            },
            Err(err) => Err(err),
        }
    }

    /// Reads a [`I128`] in little endian byte order from the first 16 byte(s) of
    /// `bytes`.
    ///
    /// # Errors
    ///
    /// Returns a size-mismatch error if `bytes` holds fewer than 16 byte(s).
    pub fn from_bytes(bytes: &[u8]) -> (r: Result<I128>)
        ensures
            r is Ok <==> bytes@.len() >= 16,
            r matches Ok(x) ==> x@ as int == to_signed(value_of(bytes@.subrange(0, 16), Endian::Little), 16),
            r matches Err(e) ==> e == Error::spec_size_mismatch(16, bytes@.len() as usize),
    {
        if bytes.len() < 16 {
            return Err(Error::size_mismatch(16, bytes.len()));
        }
        match Chunk::<16>::from_bytes(bytes) {
            Ok(chunk) => Ok(Self::from_le_chunk(chunk)),
            Err(err) => Err(err),
        }
    }
}

impl Integer for I128 {
    type Repr = i128;

    closed spec fn spec_repr(&self) -> i128 {
        self.0
    }

    closed spec fn spec_value(&self) -> int {
        self.0 as int
    }

    fn is_zero(&self) -> (b: bool) {
        self.0 == 0
    }

    fn value(&self) -> (r: i128) {
        self.0
    }
}

impl From<i128> for I128 {
    fn from(value: i128) -> (r: I128)
        ensures
            r@ == value,
            r == I128::spec_from_inner(value),
    {
        I128(value)
    }
}

impl vstd::std_specs::convert::FromSpecImpl<i128> for I128 {
    open spec fn obeys_from_spec() -> bool {
        true
    }

    closed spec fn from_spec(value: i128) -> I128 {
        I128(value)
    }
}

impl From<I128> for i128 {
    fn from(value: I128) -> (r: i128)
        ensures
            r == value@,
    {
        value.get_le()
    }
}

impl vstd::std_specs::convert::FromSpecImpl<I128> for i128 {
    open spec fn obeys_from_spec() -> bool {
        true
    }

    open spec fn from_spec(value: I128) -> i128 {
        value@
    }
}

impl FromInner<i128> for I128 {
    /// Wraps `inner` the way [`I128::new_be`] does: its bytes are stored in reverse
    /// order.
    fn from_inner(inner: i128) -> (r: I128)
        ensures
            r@ as int == swapped_signed(inner as int, 16),
    {
        Self::new_be(inner)
    }
}

impl IntoInner<i128> for I128 {
    /// Returns the stored value, read in little endian byte order.
    fn into_inner(self) -> (r: i128)
        ensures
            r == self@,
    {
        self.get_le()
    }
}

impl I128 {
    /// Law: the value that an [`Integer`] read of `x` gives, [`Integer::value`], is the
    /// value stored in `x`: the one that [`I128::get_ne`], [`I128::get_le`] and
    /// dereferencing give.
    pub proof fn lemma_value_is_stored(x: I128)
        ensures
            x.spec_repr() == x@,
            x.spec_value() == x@ as int,
    {
    }

    /// Law: the value built around `value` stores `value`.
    pub proof fn lemma_from_inner_stores(value: i128)
        ensures
            I128::spec_from_inner(value)@ == value,
    {
    }
}

impl core::ops::Deref for I128 {
    type Target = i128;

    /// Borrows the stored value.
    fn deref(&self) -> (v: &i128)
        ensures
            *v == self@,
    {
        &self.0
    }
}

/// An unsigned, 8-bit integer type, stored in native (little endian) byte order.
#[derive(Clone, Copy, Debug, Default, PartialEq, Eq, Hash, PartialOrd, Ord)]
pub struct U8(u8);

impl View for U8 {
    type V = u8;

    closed spec fn view(&self) -> u8 {
        self.0
    }
}

/// Reverses the byte order of a `u8`.
fn swap_u8(x: u8) -> (y: u8)
    ensures
        y as nat == swapped_unsigned(x as nat, 1),
{
    proof {
        lemma_pow256_widths();
    }
    let v = reverse_bytes(x as u128, 1);
    v as u8
}

impl U8 {
    /// The value whose stored integer is `value`.
    pub closed spec fn spec_from_inner(value: u8) -> U8 {
        U8(value)
    }

    /// Creates a new [`U8`] from an integer value in native byte order.
    pub fn new(value: u8) -> (r: Self)
        ensures
            r@ == value,
            r == Self::spec_from_inner(value),
    {
        Self::new_le(value)
    }

    /// Creates a new [`U8`] from a big endian integer value.
    pub fn new_be(value: u8) -> (r: Self)
        ensures
            r@ as nat == swapped_unsigned(value as nat, 1),
    {
        U8(swap_u8(value))
    }

    /// Creates a new [`U8`] from an integer, interpreting it as little endian byte
    /// order.
    pub fn new_le(value: u8) -> (r: Self)
        ensures
            r@ == value,
            r == Self::spec_from_inner(value),
    {
        U8(value)
    }

    /// Reads a new [`U8`] in little endian byte order from a chunk of 1 byte(s).
    pub fn from_le_chunk(chunk: Chunk<1>) -> (r: Self)
        ensures
            r@ as nat == value_of(chunk@, Endian::Little),
    {
        Self::from_le_bytes(chunk.into_array())
    }

    /// Reads a new [`U8`] in big endian byte order from a chunk of 1 byte(s).
    pub fn from_be_chunk(chunk: Chunk<1>) -> (r: Self)
        ensures
            r@ as nat == value_of(chunk@, Endian::Big),
    {
        Self::from_be_bytes(chunk.into_array())
    }

    /// Creates a value from its representation as a byte array in little endian byte
    /// order.
    pub fn from_le_bytes(bytes: [u8; 1]) -> (r: Self)
        ensures
            r@ as nat == value_of(bytes@, Endian::Little),
    {
        proof {
            lemma_pow256_widths();
        }
        let v = read_uint(bytes.as_slice(), 1, Endian::Little);
        assert(bytes@.subrange(0, 1) =~= bytes@);
        U8(v as u8)
    }

    /// Creates a value from its representation as a byte array in big endian byte
    /// order.
    pub fn from_be_bytes(bytes: [u8; 1]) -> (r: Self)
        ensures
            r@ as nat == value_of(bytes@, Endian::Big),
    {
        proof {
            lemma_pow256_widths();
        }
        let v = read_uint(bytes.as_slice(), 1, Endian::Big);
        assert(bytes@.subrange(0, 1) =~= bytes@);
        U8(v as u8)
    }

    /// Returns the memory representation of this integer as a byte array in little
    /// endian byte order.
    pub fn to_le_bytes(self) -> (a: [u8; 1])
        ensures
            a@ == bytes_of(self@ as nat, 1, Endian::Little),
    {
        let mut a = [0u8; 1];
        write_uint(&mut a, self.0 as u128, 1, Endian::Little);
        a
    }

    /// Returns the memory representation of this integer as a byte array in big
    /// endian byte order.
    pub fn to_be_bytes(self) -> (a: [u8; 1])
        ensures
            a@ == bytes_of(self@ as nat, 1, Endian::Big),
    {
        let mut a = [0u8; 1];
        write_uint(&mut a, self.0 as u128, 1, Endian::Big);
        a
    }

    /// Gets the stored integer read in the specified byte order.
    pub fn get(self, endian: Endian) -> (v: u8)
        ensures
            endian == Endian::Little ==> v == self@,
            endian == Endian::Big ==> v as nat == swapped_unsigned(self@ as nat, 1),
    {
        match endian {
            Endian::Big => swap_u8(self.0),
            Endian::Little => self.0,
        }
    }

    /// Gets the stored integer in native byte order.
    pub fn get_ne(self) -> (v: u8)
        ensures
            v == self@,
    {
        self.0
    }

    /// Gets the stored integer in little endian byte order.
    pub fn get_le(self) -> (v: u8)
        ensures
            v == self@,
    {
        self.0
    }

    /// Gets the stored integer in big endian byte order.
    pub fn get_be(self) -> (v: u8)
        ensures
            v as nat == swapped_unsigned(self@ as nat, 1),
    {
        swap_u8(self.0)
    }

    /// Reads a [`U8`] from the first 1 byte(s) of `bytes` in byte order `endian`.
    ///
    /// # Errors
    ///
    /// Returns an out-of-bounds error if `bytes` holds fewer than 1 byte(s).
    pub fn read_aligned(bytes: &[u8], endian: Endian) -> (r: Result<U8>)
        ensures
            r is Ok <==> bytes@.len() >= 1,
            r matches Ok(x) ==> x@ as nat == value_of(bytes@.subrange(0, 1), endian),
            r matches Err(e) ==> e == Error::spec_out_of_bounds(1, bytes@.len() as usize),
    {
        match Chunk::<1>::from_bytes(bytes) {
            Ok(chunk) => match endian {
                Endian::Big => Ok(Self::from_be_chunk(chunk)),
                Endian::Little => Ok(Self::from_le_chunk(chunk)),
            },
            Err(err) => Err(err),
        }
    }

    /// Reads a [`U8`] in little endian byte order from the first 1 byte(s) of
    /// `bytes`, returning it with the bytes that follow.
    ///
    /// # Errors
    ///
    /// Returns an out-of-bounds error if `bytes` holds fewer than 1 byte(s).
    pub fn read_bytes(bytes: &[u8]) -> (r: Result<(U8, &[u8])>)
        ensures
            r is Ok <==> bytes@.len() >= 1,
            r matches Ok((x, tail)) ==> x@ as nat == value_of(bytes@.subrange(0, 1), Endian::Little)
                && tail@ == bytes@.subrange(1, bytes@.len() as int),
            r matches Err(e) ==> e == Error::spec_out_of_bounds(1, bytes@.len() as usize),
    {
        match Chunk::<1>::from_bytes(bytes) {
            Ok(chunk) => {
                let tail = vstd::slice::slice_subrange(bytes, 1, bytes.len());
                Ok((Self::from_le_chunk(chunk), tail))
            },
            Err(err) => Err(err),
        }
    }

    /// Reads a [`U8`] in little endian byte order from the first 1 byte(s) of
    /// `bytes`.
    ///
    /// # Errors
    ///
    /// Returns a size-mismatch error if `bytes` holds fewer than 1 byte(s).
    pub fn from_bytes(bytes: &[u8]) -> (r: Result<U8>)
        ensures
            r is Ok <==> bytes@.len() >= 1,
            r matches Ok(x) ==> x@ as nat == value_of(bytes@.subrange(0, 1), Endian::Little),
            r matches Err(e) ==> e == Error::spec_size_mismatch(1, bytes@.len() as usize),
    {
        if bytes.len() < 1 {
            return Err(Error::size_mismatch(1, bytes.len()));
        }
        match Chunk::<1>::from_bytes(bytes) {
            Ok(chunk) => Ok(Self::from_le_chunk(chunk)),
            Err(err) => Err(err),
        }
    }
}

impl Integer for U8 {
    type Repr = u8;

    closed spec fn spec_repr(&self) -> u8 {
        self.0
    }

    closed spec fn spec_value(&self) -> int {
        self.0 as int
    }

    fn is_zero(&self) -> (b: bool) {
        self.0 == 0
    }

    fn value(&self) -> (r: u8) {
        self.0
    }
}

impl From<u8> for U8 {
    fn from(value: u8) -> (r: U8)
        ensures
            r@ == value,
            r == U8::spec_from_inner(value),
    {
        U8(value)
    }
}

impl vstd::std_specs::convert::FromSpecImpl<u8> for U8 {
    open spec fn obeys_from_spec() -> bool {
        true
    }

    closed spec fn from_spec(value: u8) -> U8 {
        U8(value)
    }
}

impl From<U8> for u8 {
    fn from(value: U8) -> (r: u8)
        ensures
            r == value@,
    {
        value.get_le()
    }
}

impl vstd::std_specs::convert::FromSpecImpl<U8> for u8 {
    open spec fn obeys_from_spec() -> bool {
        true
    }

    open spec fn from_spec(value: U8) -> u8 {
        value@
    }
}

impl FromInner<u8> for U8 {
    /// Wraps `inner` the way [`U8::new_be`] does: its bytes are stored in reverse
    /// order.
    fn from_inner(inner: u8) -> (r: U8)
        ensures
            r@ as nat == swapped_unsigned(inner as nat, 1),
    {
        Self::new_be(inner)
    }
}

impl IntoInner<u8> for U8 {
    /// Returns the stored value, read in little endian byte order.
    fn into_inner(self) -> (r: u8)
        ensures
            r == self@,
    {
        self.get_le()
    }
}

impl U8 {
    /// Law: the value that an [`Integer`] read of `x` gives, [`Integer::value`], is the
    /// value stored in `x`: the one that [`U8::get_ne`], [`U8::get_le`] and
    /// dereferencing give.
    pub proof fn lemma_value_is_stored(x: U8)
        ensures
            x.spec_repr() == x@,
            x.spec_value() == x@ as int,
    {
    }

    /// Law: the value built around `value` stores `value`.
    pub proof fn lemma_from_inner_stores(value: u8)
        ensures
            U8::spec_from_inner(value)@ == value,
    {
    }
}

impl core::ops::Deref for U8 {
    type Target = u8;

    /// Borrows the stored value.
    fn deref(&self) -> (v: &u8)
        ensures
            *v == self@,
    {
        &self.0
    }
}

/// An unsigned, 16-bit integer type, stored in native (little endian) byte order.
#[derive(Clone, Copy, Debug, Default, PartialEq, Eq, Hash, PartialOrd, Ord)]
pub struct U16(u16);

impl View for U16 {
    type V = u16;

    closed spec fn view(&self) -> u16 {
        self.0
    }
}

/// Reverses the byte order of a `u16`.
fn swap_u16(x: u16) -> (y: u16)
    ensures
        y as nat == swapped_unsigned(x as nat, 2),
{
    proof {
        lemma_pow256_widths();
    }
    let v = reverse_bytes(x as u128, 2);
    v as u16
}

impl U16 {
    /// The value whose stored integer is `value`.
    pub closed spec fn spec_from_inner(value: u16) -> U16 {
        U16(value)
    }

    /// Creates a new [`U16`] from an integer value in native byte order.
    pub fn new(value: u16) -> (r: Self)
        ensures
            r@ == value,
            r == Self::spec_from_inner(value),
    {
        Self::new_le(value)
    }

    /// Creates a new [`U16`] from a big endian integer value.
    pub fn new_be(value: u16) -> (r: Self)
        ensures
            r@ as nat == swapped_unsigned(value as nat, 2),
    {
        U16(swap_u16(value))
    }

    /// Creates a new [`U16`] from an integer, interpreting it as little endian byte
    /// order.
    pub fn new_le(value: u16) -> (r: Self)
        ensures
            r@ == value,
            r == Self::spec_from_inner(value),
    {
        U16(value)
    }

    /// Reads a new [`U16`] in little endian byte order from a chunk of 2 byte(s).
    pub fn from_le_chunk(chunk: Chunk<2>) -> (r: Self)
        ensures
            r@ as nat == value_of(chunk@, Endian::Little),
    {
        Self::from_le_bytes(chunk.into_array())
    }

    /// Reads a new [`U16`] in big endian byte order from a chunk of 2 byte(s).
    pub fn from_be_chunk(chunk: Chunk<2>) -> (r: Self)
        ensures
            r@ as nat == value_of(chunk@, Endian::Big),
    {
        Self::from_be_bytes(chunk.into_array())
    }

    /// Creates a value from its representation as a byte array in little endian byte
    /// order.
    pub fn from_le_bytes(bytes: [u8; 2]) -> (r: Self)
        ensures
            r@ as nat == value_of(bytes@, Endian::Little),
    {
        proof {
            lemma_pow256_widths();
        }
        let v = read_uint(bytes.as_slice(), 2, Endian::Little);
        assert(bytes@.subrange(0, 2) =~= bytes@);
        U16(v as u16)
    }

    /// Creates a value from its representation as a byte array in big endian byte
    /// order.
    pub fn from_be_bytes(bytes: [u8; 2]) -> (r: Self)
        ensures
            r@ as nat == value_of(bytes@, Endian::Big),
    {
        proof {
            lemma_pow256_widths();
        }
        let v = read_uint(bytes.as_slice(), 2, Endian::Big);
        assert(bytes@.subrange(0, 2) =~= bytes@);
        U16(v as u16)
    }

    /// Returns the memory representation of this integer as a byte array in little
    /// endian byte order.
    pub fn to_le_bytes(self) -> (a: [u8; 2])
        ensures
            a@ == bytes_of(self@ as nat, 2, Endian::Little),
    {
        let mut a = [0u8; 2];
        write_uint(&mut a, self.0 as u128, 2, Endian::Little);
        a
    }

    /// Returns the memory representation of this integer as a byte array in big
    /// endian byte order.
    pub fn to_be_bytes(self) -> (a: [u8; 2])
        ensures
            a@ == bytes_of(self@ as nat, 2, Endian::Big),
    {
        let mut a = [0u8; 2];
        write_uint(&mut a, self.0 as u128, 2, Endian::Big);
        a
    }

    /// Gets the stored integer read in the specified byte order.
    pub fn get(self, endian: Endian) -> (v: u16)
        ensures
            endian == Endian::Little ==> v == self@,
            endian == Endian::Big ==> v as nat == swapped_unsigned(self@ as nat, 2),
    {
        match endian {
            Endian::Big => swap_u16(self.0),
            Endian::Little => self.0,
        }
    }

    /// Gets the stored integer in native byte order.
    pub fn get_ne(self) -> (v: u16)
        ensures
            v == self@,
    {
        self.0
    }

    /// Gets the stored integer in little endian byte order.
    pub fn get_le(self) -> (v: u16)
        ensures
            v == self@,
    {
        self.0
    }

    /// Gets the stored integer in big endian byte order.
    pub fn get_be(self) -> (v: u16)
        ensures
            v as nat == swapped_unsigned(self@ as nat, 2),
    {
        swap_u16(self.0)
    }

    /// Reads a [`U16`] from the first 2 byte(s) of `bytes` in byte order `endian`.
    ///
    /// # Errors
    ///
    /// Returns an out-of-bounds error if `bytes` holds fewer than 2 byte(s).
    pub fn read_aligned(bytes: &[u8], endian: Endian) -> (r: Result<U16>)
        ensures
            r is Ok <==> bytes@.len() >= 2,
            r matches Ok(x) ==> x@ as nat == value_of(bytes@.subrange(0, 2), endian),
            r matches Err(e) ==> e == Error::spec_out_of_bounds(2, bytes@.len() as usize),
    {
        match Chunk::<2>::from_bytes(bytes) {
            Ok(chunk) => match endian {
                Endian::Big => Ok(Self::from_be_chunk(chunk)),
                Endian::Little => Ok(Self::from_le_chunk(chunk)),
            },
            Err(err) => Err(err),
        }
    }

    /// Reads a [`U16`] in little endian byte order from the first 2 byte(s) of
    /// `bytes`, returning it with the bytes that follow.
    ///
    /// # Errors
    ///
    /// Returns an out-of-bounds error if `bytes` holds fewer than 2 byte(s).
    pub fn read_bytes(bytes: &[u8]) -> (r: Result<(U16, &[u8])>)
        ensures
            r is Ok <==> bytes@.len() >= 2,
            r matches Ok((x, tail)) ==> x@ as nat == value_of(bytes@.subrange(0, 2), Endian::Little)
                && tail@ == bytes@.subrange(2, bytes@.len() as int),
            r matches Err(e) ==> e == Error::spec_out_of_bounds(2, bytes@.len() as usize),
    {
        match Chunk::<2>::from_bytes(bytes) {
            Ok(chunk) => {
                let tail = vstd::slice::slice_subrange(bytes, 2, bytes.len());
                Ok((Self::from_le_chunk(chunk), tail))
            },
            Err(err) => Err(err),
        }
    }

    /// Reads a [`U16`] in little endian byte order from the first 2 byte(s) of
    /// `bytes`.
    ///
    /// # Errors
    ///
    /// Returns a size-mismatch error if `bytes` holds fewer than 2 byte(s).
    pub fn from_bytes(bytes: &[u8]) -> (r: Result<U16>)
        ensures
            r is Ok <==> bytes@.len() >= 2,
            r matches Ok(x) ==> x@ as nat == value_of(bytes@.subrange(0, 2), Endian::Little),
            r matches Err(e) ==> e == Error::spec_size_mismatch(2, bytes@.len() as usize),
    {
        if bytes.len() < 2 {
            return Err(Error::size_mismatch(2, bytes.len()));
        }
        match Chunk::<2>::from_bytes(bytes) {
            Ok(chunk) => Ok(Self::from_le_chunk(chunk)),
            Err(err) => Err(err),
        }
    }
}

impl Integer for U16 {
    type Repr = u16;

    closed spec fn spec_repr(&self) -> u16 {
        self.0
    }

    closed spec fn spec_value(&self) -> int {
        self.0 as int
    }

    fn is_zero(&self) -> (b: bool) {
        self.0 == 0
    }

    fn value(&self) -> (r: u16) {
        self.0
    }
}

impl From<u16> for U16 {
    fn from(value: u16) -> (r: U16)
        ensures
            r@ == value,
            r == U16::spec_from_inner(value),
    {
        U16(value)
    }
}

impl vstd::std_specs::convert::FromSpecImpl<u16> for U16 {
    open spec fn obeys_from_spec() -> bool {
        true
    }

    closed spec fn from_spec(value: u16) -> U16 {
        U16(value)
    }
}

impl From<U16> for u16 {
    fn from(value: U16) -> (r: u16)
        ensures
            r == value@,
    {
        value.get_le()
    }
}

impl vstd::std_specs::convert::FromSpecImpl<U16> for u16 {
    open spec fn obeys_from_spec() -> bool {
        true
    }

    open spec fn from_spec(value: U16) -> u16 {
        value@
    }
}

impl FromInner<u16> for U16 {
    /// Wraps `inner` the way [`U16::new_be`] does: its bytes are stored in reverse
    /// order.
    fn from_inner(inner: u16) -> (r: U16)
        ensures
            r@ as nat == swapped_unsigned(inner as nat, 2),
    {
        Self::new_be(inner)
    }
}

impl IntoInner<u16> for U16 {
    /// Returns the stored value, read in little endian byte order.
    fn into_inner(self) -> (r: u16)
        ensures
            r == self@,
    {
        self.get_le()
    }
}

impl U16 {
    /// Law: the value that an [`Integer`] read of `x` gives, [`Integer::value`], is the
    /// value stored in `x`: the one that [`U16::get_ne`], [`U16::get_le`] and
    /// dereferencing give.
    pub proof fn lemma_value_is_stored(x: U16)
        ensures
            x.spec_repr() == x@,
            x.spec_value() == x@ as int,
    {
    }

    /// Law: the value built around `value` stores `value`.
    pub proof fn lemma_from_inner_stores(value: u16)
        ensures
            U16::spec_from_inner(value)@ == value,
    {
    }
}

impl core::ops::Deref for U16 {
    type Target = u16;

    /// Borrows the stored value.
    fn deref(&self) -> (v: &u16)
        ensures
            *v == self@,
    {
        &self.0
    }
}

/// An unsigned, 32-bit integer type, stored in native (little endian) byte order.
#[derive(Clone, Copy, Debug, Default, PartialEq, Eq, Hash, PartialOrd, Ord)]
pub struct U32(u32);

impl View for U32 {
    type V = u32;

    closed spec fn view(&self) -> u32 {
        self.0
    }
}

/// Reverses the byte order of a `u32`.
fn swap_u32(x: u32) -> (y: u32)
    ensures
        y as nat == swapped_unsigned(x as nat, 4),
{
    proof {
        lemma_pow256_widths();
    }
    let v = reverse_bytes(x as u128, 4);
    v as u32
}

impl U32 {
    /// The value whose stored integer is `value`.
    pub closed spec fn spec_from_inner(value: u32) -> U32 {
        U32(value)
    }

    /// Creates a new [`U32`] from an integer value in native byte order.
    pub fn new(value: u32) -> (r: Self)
        ensures
            r@ == value,
            r == Self::spec_from_inner(value),
    {
        Self::new_le(value)
    }

    /// Creates a new [`U32`] from a big endian integer value.
    pub fn new_be(value: u32) -> (r: Self)
        ensures
            r@ as nat == swapped_unsigned(value as nat, 4),
    {
        U32(swap_u32(value))
    }

    /// Creates a new [`U32`] from an integer, interpreting it as little endian byte
    /// order.
    pub fn new_le(value: u32) -> (r: Self)
        ensures
            r@ == value,
            r == Self::spec_from_inner(value),
    {
        U32(value)
    }

    /// Reads a new [`U32`] in little endian byte order from a chunk of 4 byte(s).
    pub fn from_le_chunk(chunk: Chunk<4>) -> (r: Self)
        ensures
            r@ as nat == value_of(chunk@, Endian::Little),
    {
        Self::from_le_bytes(chunk.into_array())
    }

    /// Reads a new [`U32`] in big endian byte order from a chunk of 4 byte(s).
    pub fn from_be_chunk(chunk: Chunk<4>) -> (r: Self)
        ensures
            r@ as nat == value_of(chunk@, Endian::Big),
    {
        Self::from_be_bytes(chunk.into_array())
    }

    /// Creates a value from its representation as a byte array in little endian byte
    /// order.
    pub fn from_le_bytes(bytes: [u8; 4]) -> (r: Self)
        ensures
            r@ as nat == value_of(bytes@, Endian::Little),
    {
        proof {
            lemma_pow256_widths();
        }
        let v = read_uint(bytes.as_slice(), 4, Endian::Little);
        assert(bytes@.subrange(0, 4) =~= bytes@);
        U32(v as u32)
    }

    /// Creates a value from its representation as a byte array in big endian byte
    /// order.
    pub fn from_be_bytes(bytes: [u8; 4]) -> (r: Self)
        ensures
            r@ as nat == value_of(bytes@, Endian::Big),
    {
        proof {
            lemma_pow256_widths();
        }
        let v = read_uint(bytes.as_slice(), 4, Endian::Big);
        assert(bytes@.subrange(0, 4) =~= bytes@);
        U32(v as u32)
    }

    /// Returns the memory representation of this integer as a byte array in little
    /// endian byte order.
    pub fn to_le_bytes(self) -> (a: [u8; 4])
        ensures
            a@ == bytes_of(self@ as nat, 4, Endian::Little),
    {
        let mut a = [0u8; 4];
        write_uint(&mut a, self.0 as u128, 4, Endian::Little);
        a
    }

    /// Returns the memory representation of this integer as a byte array in big
    /// endian byte order.
    pub fn to_be_bytes(self) -> (a: [u8; 4])
        ensures
            a@ == bytes_of(self@ as nat, 4, Endian::Big),
    {
        let mut a = [0u8; 4];
        write_uint(&mut a, self.0 as u128, 4, Endian::Big);
        a
    }

    /// Gets the stored integer read in the specified byte order.
    pub fn get(self, endian: Endian) -> (v: u32)
        ensures
            endian == Endian::Little ==> v == self@,
            endian == Endian::Big ==> v as nat == swapped_unsigned(self@ as nat, 4),
    {
        match endian {
            Endian::Big => swap_u32(self.0),
            Endian::Little => self.0,
        }
    }

    /// Gets the stored integer in native byte order.
    pub fn get_ne(self) -> (v: u32)
        ensures
            v == self@,
    {
        self.0
    }

    /// Gets the stored integer in little endian byte order.
    pub fn get_le(self) -> (v: u32)
        ensures
            v == self@,
    {
        self.0
    }

    /// Gets the stored integer in big endian byte order.
    pub fn get_be(self) -> (v: u32)
        ensures
            v as nat == swapped_unsigned(self@ as nat, 4),
    {
        swap_u32(self.0)
    }

    /// Reads a [`U32`] from the first 4 byte(s) of `bytes` in byte order `endian`.
    ///
    /// # Errors
    ///
    /// Returns an out-of-bounds error if `bytes` holds fewer than 4 byte(s).
    pub fn read_aligned(bytes: &[u8], endian: Endian) -> (r: Result<U32>)
        ensures
            r is Ok <==> bytes@.len() >= 4,
            r matches Ok(x) ==> x@ as nat == value_of(bytes@.subrange(0, 4), endian),
            r matches Err(e) ==> e == Error::spec_out_of_bounds(4, bytes@.len() as usize),
    {
        match Chunk::<4>::from_bytes(bytes) {
            Ok(chunk) => match endian {
                Endian::Big => Ok(Self::from_be_chunk(chunk)),
                Endian::Little => Ok(Self::from_le_chunk(chunk)),
            },
            Err(err) => Err(err),
        }
    }

    /// Reads a [`U32`] in little endian byte order from the first 4 byte(s) of
    /// `bytes`, returning it with the bytes that follow.
    ///
    /// # Errors
    ///
    /// Returns an out-of-bounds error if `bytes` holds fewer than 4 byte(s).
    pub fn read_bytes(bytes: &[u8]) -> (r: Result<(U32, &[u8])>)
        ensures
            r is Ok <==> bytes@.len() >= 4,
            r matches Ok((x, tail)) ==> x@ as nat == value_of(bytes@.subrange(0, 4), Endian::Little)
                && tail@ == bytes@.subrange(4, bytes@.len() as int),
            r matches Err(e) ==> e == Error::spec_out_of_bounds(4, bytes@.len() as usize),
    {
        match Chunk::<4>::from_bytes(bytes) {
            Ok(chunk) => {
                let tail = vstd::slice::slice_subrange(bytes, 4, bytes.len());
                Ok((Self::from_le_chunk(chunk), tail))
            },
            Err(err) => Err(err),
        }
    }

    /// Reads a [`U32`] in little endian byte order from the first 4 byte(s) of
    /// `bytes`.
    ///
    /// # Errors
    ///
    /// Returns a size-mismatch error if `bytes` holds fewer than 4 byte(s).
    pub fn from_bytes(bytes: &[u8]) -> (r: Result<U32>)
        ensures
            r is Ok <==> bytes@.len() >= 4,
            r matches Ok(x) ==> x@ as nat == value_of(bytes@.subrange(0, 4), Endian::Little),
            r matches Err(e) ==> e == Error::spec_size_mismatch(4, bytes@.len() as usize),
    {
        if bytes.len() < 4 {
            return Err(Error::size_mismatch(4, bytes.len()));
        }
        match Chunk::<4>::from_bytes(bytes) {
            Ok(chunk) => Ok(Self::from_le_chunk(chunk)),
            Err(err) => Err(err),
        }
    }
}

impl Integer for U32 {
    type Repr = u32;

    closed spec fn spec_repr(&self) -> u32 {
        self.0
    }

    closed spec fn spec_value(&self) -> int {
        self.0 as int
    }

    fn is_zero(&self) -> (b: bool) {
        self.0 == 0
    }

    fn value(&self) -> (r: u32) {
        self.0
    }
}

impl From<u32> for U32 {
    fn from(value: u32) -> (r: U32)
        ensures
            r@ == value,
            r == U32::spec_from_inner(value),
    {
        U32(value)
    }
}

impl vstd::std_specs::convert::FromSpecImpl<u32> for U32 {
    open spec fn obeys_from_spec() -> bool {
        true
    }

    closed spec fn from_spec(value: u32) -> U32 {
        U32(value)
    }
}

impl From<U32> for u32 {
    fn from(value: U32) -> (r: u32)
        ensures
            r == value@,
    {
        value.get_le()
    }
}

impl vstd::std_specs::convert::FromSpecImpl<U32> for u32 {
    open spec fn obeys_from_spec() -> bool {
        true
    }

    open spec fn from_spec(value: U32) -> u32 {
        value@
    }
}

impl FromInner<u32> for U32 {
    /// Wraps `inner` the way [`U32::new_be`] does: its bytes are stored in reverse
    /// order.
    fn from_inner(inner: u32) -> (r: U32)
        ensures
            r@ as nat == swapped_unsigned(inner as nat, 4),
    {
        Self::new_be(inner)
    }
}

impl IntoInner<u32> for U32 {
    /// Returns the stored value, read in little endian byte order.
    fn into_inner(self) -> (r: u32)
        ensures
            r == self@,
    {
        self.get_le()
    }
}

impl U32 {
    /// Law: the value that an [`Integer`] read of `x` gives, [`Integer::value`], is the
    /// value stored in `x`: the one that [`U32::get_ne`], [`U32::get_le`] and
    /// dereferencing give.
    pub proof fn lemma_value_is_stored(x: U32)
        ensures
            x.spec_repr() == x@,
            x.spec_value() == x@ as int,
    {
    }

    /// Law: the value built around `value` stores `value`.
    pub proof fn lemma_from_inner_stores(value: u32)
        ensures
            U32::spec_from_inner(value)@ == value,
    {
    }
}

impl core::ops::Deref for U32 {
    type Target = u32;

    /// Borrows the stored value.
    fn deref(&self) -> (v: &u32)
        ensures
            *v == self@,
    {
        &self.0
    }
}

/// An unsigned, 64-bit integer type, stored in native (little endian) byte order.
#[derive(Clone, Copy, Debug, Default, PartialEq, Eq, Hash, PartialOrd, Ord)]
pub struct U64(u64);

impl View for U64 {
    type V = u64;

    closed spec fn view(&self) -> u64 {
        self.0
    }
}

/// Reverses the byte order of a `u64`.
fn swap_u64(x: u64) -> (y: u64)
    ensures
        y as nat == swapped_unsigned(x as nat, 8),
{
    proof {
        lemma_pow256_widths();
    }
    let v = reverse_bytes(x as u128, 8);
    v as u64
}

impl U64 {
    /// The value whose stored integer is `value`.
    pub closed spec fn spec_from_inner(value: u64) -> U64 {
        U64(value)
    }

    /// Creates a new [`U64`] from an integer value in native byte order.
    pub fn new(value: u64) -> (r: Self)
        ensures
            r@ == value,
            r == Self::spec_from_inner(value),
    {
        Self::new_le(value)
    }

    /// Creates a new [`U64`] from a big endian integer value.
    pub fn new_be(value: u64) -> (r: Self)
        ensures
            r@ as nat == swapped_unsigned(value as nat, 8),
    {
        U64(swap_u64(value))
    }

    /// Creates a new [`U64`] from an integer, interpreting it as little endian byte
    /// order.
    pub fn new_le(value: u64) -> (r: Self)
        ensures
            r@ == value,
            r == Self::spec_from_inner(value),
    {
        U64(value)
    }

    /// Reads a new [`U64`] in little endian byte order from a chunk of 8 byte(s).
    pub fn from_le_chunk(chunk: Chunk<8>) -> (r: Self)
        ensures
            r@ as nat == value_of(chunk@, Endian::Little),
    {
        Self::from_le_bytes(chunk.into_array())
    }

    /// Reads a new [`U64`] in big endian byte order from a chunk of 8 byte(s).
    pub fn from_be_chunk(chunk: Chunk<8>) -> (r: Self)
        ensures
            r@ as nat == value_of(chunk@, Endian::Big),
    {
        Self::from_be_bytes(chunk.into_array())
    }

    /// Creates a value from its representation as a byte array in little endian byte
    /// order.
    pub fn from_le_bytes(bytes: [u8; 8]) -> (r: Self)
        ensures
            r@ as nat == value_of(bytes@, Endian::Little),
    {
        proof {
            lemma_pow256_widths();
        }
        let v = read_uint(bytes.as_slice(), 8, Endian::Little);
        assert(bytes@.subrange(0, 8) =~= bytes@);
        U64(v as u64)
    }

    /// Creates a value from its representation as a byte array in big endian byte
    /// order.
    pub fn from_be_bytes(bytes: [u8; 8]) -> (r: Self)
        ensures
            r@ as nat == value_of(bytes@, Endian::Big),
    {
        proof {
            lemma_pow256_widths();
        }
        let v = read_uint(bytes.as_slice(), 8, Endian::Big);
        assert(bytes@.subrange(0, 8) =~= bytes@);
        U64(v as u64)
    }

    /// Returns the memory representation of this integer as a byte array in little
    /// endian byte order.
    pub fn to_le_bytes(self) -> (a: [u8; 8])
        ensures
            a@ == bytes_of(self@ as nat, 8, Endian::Little),
    {
        let mut a = [0u8; 8];
        write_uint(&mut a, self.0 as u128, 8, Endian::Little);
        a
    }

    /// Returns the memory representation of this integer as a byte array in big
    /// endian byte order.
    pub fn to_be_bytes(self) -> (a: [u8; 8])
        ensures
            a@ == bytes_of(self@ as nat, 8, Endian::Big),
    {
        let mut a = [0u8; 8];
        write_uint(&mut a, self.0 as u128, 8, Endian::Big);
        a
    }

    /// Gets the stored integer read in the specified byte order.
    pub fn get(self, endian: Endian) -> (v: u64)
        ensures
            endian == Endian::Little ==> v == self@,
            endian == Endian::Big ==> v as nat == swapped_unsigned(self@ as nat, 8),
    {
        match endian {
            Endian::Big => swap_u64(self.0),
            Endian::Little => self.0,
        }
    }

    /// Gets the stored integer in native byte order.
    pub fn get_ne(self) -> (v: u64)
        ensures
            v == self@,
    {
        self.0
    }

    /// Gets the stored integer in little endian byte order.
    pub fn get_le(self) -> (v: u64)
        ensures
            v == self@,
    {
        self.0
    }

    /// Gets the stored integer in big endian byte order.
    pub fn get_be(self) -> (v: u64)
        ensures
            v as nat == swapped_unsigned(self@ as nat, 8),
    {
        swap_u64(self.0)
    }

    /// Reads a [`U64`] from the first 8 byte(s) of `bytes` in byte order `endian`.
    ///
    /// # Errors
    ///
    /// Returns an out-of-bounds error if `bytes` holds fewer than 8 byte(s).
    pub fn read_aligned(bytes: &[u8], endian: Endian) -> (r: Result<U64>)
        ensures
            r is Ok <==> bytes@.len() >= 8,
            r matches Ok(x) ==> x@ as nat == value_of(bytes@.subrange(0, 8), endian),
            r matches Err(e) ==> e == Error::spec_out_of_bounds(8, bytes@.len() as usize),
    {
        match Chunk::<8>::from_bytes(bytes) {
            Ok(chunk) => match endian {
                Endian::Big => Ok(Self::from_be_chunk(chunk)),
                Endian::Little => Ok(Self::from_le_chunk(chunk)),
            },
            Err(err) => Err(err),
        }
    }

    /// Reads a [`U64`] in little endian byte order from the first 8 byte(s) of
    /// `bytes`, returning it with the bytes that follow.
    ///
    /// # Errors
    ///
    /// Returns an out-of-bounds error if `bytes` holds fewer than 8 byte(s).
    pub fn read_bytes(bytes: &[u8]) -> (r: Result<(U64, &[u8])>)
        ensures
            r is Ok <==> bytes@.len() >= 8,
            r matches Ok((x, tail)) ==> x@ as nat == value_of(bytes@.subrange(0, 8), Endian::Little)
                && tail@ == bytes@.subrange(8, bytes@.len() as int),
            r matches Err(e) ==> e == Error::spec_out_of_bounds(8, bytes@.len() as usize),
    {
        match Chunk::<8>::from_bytes(bytes) {
            Ok(chunk) => {
                let tail = vstd::slice::slice_subrange(bytes, 8, bytes.len());
                Ok((Self::from_le_chunk(chunk), tail))
            },
            Err(err) => Err(err),
        }
    }

    /// Reads a [`U64`] in little endian byte order from the first 8 byte(s) of
    /// `bytes`.
    ///
    /// # Errors
    ///
    /// Returns a size-mismatch error if `bytes` holds fewer than 8 byte(s).
    pub fn from_bytes(bytes: &[u8]) -> (r: Result<U64>)
        ensures
            r is Ok <==> bytes@.len() >= 8,
            r matches Ok(x) ==> x@ as nat == value_of(bytes@.subrange(0, 8), Endian::Little),
            r matches Err(e) ==> e == Error::spec_size_mismatch(8, bytes@.len() as usize),
    {
        if bytes.len() < 8 {
            return Err(Error::size_mismatch(8, bytes.len()));
        }
        match Chunk::<8>::from_bytes(bytes) {
            Ok(chunk) => Ok(Self::from_le_chunk(chunk)),
            Err(err) => Err(err),
        }
    }
}

impl Integer for U64 {
    type Repr = u64;

    closed spec fn spec_repr(&self) -> u64 {
        self.0
    }

    closed spec fn spec_value(&self) -> int {
        self.0 as int
    }

    fn is_zero(&self) -> (b: bool) {
        self.0 == 0
    }

    fn value(&self) -> (r: u64) {
        self.0
    }
}

impl From<u64> for U64 {
    fn from(value: u64) -> (r: U64)
        ensures
            r@ == value,
            r == U64::spec_from_inner(value),
    {
        U64(value)
    }
}

impl vstd::std_specs::convert::FromSpecImpl<u64> for U64 {
    open spec fn obeys_from_spec() -> bool {
        true
    }

    closed spec fn from_spec(value: u64) -> U64 {
        U64(value)
    }
}

impl From<U64> for u64 {
    fn from(value: U64) -> (r: u64)
        ensures
            r == value@,
    {
        value.get_le()
    }
}

impl vstd::std_specs::convert::FromSpecImpl<U64> for u64 {
    open spec fn obeys_from_spec() -> bool {
        true
    }

    open spec fn from_spec(value: U64) -> u64 {
        value@
    }
}

impl FromInner<u64> for U64 {
    /// Wraps `inner` the way [`U64::new_be`] does: its bytes are stored in reverse
    /// order.
    fn from_inner(inner: u64) -> (r: U64)
        ensures
            r@ as nat == swapped_unsigned(inner as nat, 8),
    {
        Self::new_be(inner)
    }
}

impl IntoInner<u64> for U64 {
    /// Returns the stored value, read in little endian byte order.
    fn into_inner(self) -> (r: u64)
        ensures
            r == self@,
    {
        self.get_le()
    }
}

impl U64 {
    /// Law: the value that an [`Integer`] read of `x` gives, [`Integer::value`], is the
    /// value stored in `x`: the one that [`U64::get_ne`], [`U64::get_le`] and
    /// dereferencing give.
    pub proof fn lemma_value_is_stored(x: U64)
        ensures
            x.spec_repr() == x@,
            x.spec_value() == x@ as int,
    {
    }

    /// Law: the value built around `value` stores `value`.
    pub proof fn lemma_from_inner_stores(value: u64)
        ensures
            U64::spec_from_inner(value)@ == value,
    {
    }
}

impl core::ops::Deref for U64 {
    type Target = u64;

    /// Borrows the stored value.
    fn deref(&self) -> (v: &u64)
        ensures
            *v == self@,
    {
        &self.0
    }
}

/// An unsigned, 128-bit integer type, stored in native (little endian) byte order.
#[derive(Clone, Copy, Debug, Default, PartialEq, Eq, Hash, PartialOrd, Ord)]
pub struct U128(u128);

impl View for U128 {
    type V = u128;

    closed spec fn view(&self) -> u128 {
        self.0
    }
}

/// Reverses the byte order of a `u128`.
fn swap_u128(x: u128) -> (y: u128)
    ensures
        y as nat == swapped_unsigned(x as nat, 16),
{
    proof {
        lemma_pow256_widths();
    }
    let v = reverse_bytes(x as u128, 16);
    v as u128
}

impl U128 {
    /// The value whose stored integer is `value`.
    pub closed spec fn spec_from_inner(value: u128) -> U128 {
        U128(value)
    }

    /// Creates a new [`U128`] from an integer value in native byte order.
    pub fn new(value: u128) -> (r: Self)
        ensures
            r@ == value,
            r == Self::spec_from_inner(value),
    {
        Self::new_le(value)
    }

    /// Creates a new [`U128`] from a big endian integer value.
    pub fn new_be(value: u128) -> (r: Self)
        ensures
            r@ as nat == swapped_unsigned(value as nat, 16),
    {
        U128(swap_u128(value))
    }

    /// Creates a new [`U128`] from an integer, interpreting it as little endian byte
    /// order.
    pub fn new_le(value: u128) -> (r: Self)
        ensures
            r@ == value,
            r == Self::spec_from_inner(value),
    {
        U128(value)
    }

    /// Reads a new [`U128`] in little endian byte order from a chunk of 16 byte(s).
    pub fn from_le_chunk(chunk: Chunk<16>) -> (r: Self)
        ensures
            r@ as nat == value_of(chunk@, Endian::Little),
    {
        Self::from_le_bytes(chunk.into_array())
    }

    /// Reads a new [`U128`] in big endian byte order from a chunk of 16 byte(s).
    pub fn from_be_chunk(chunk: Chunk<16>) -> (r: Self)
        ensures
            r@ as nat == value_of(chunk@, Endian::Big),
    {
        Self::from_be_bytes(chunk.into_array())
    }

    /// Creates a value from its representation as a byte array in little endian byte
    /// order.
    pub fn from_le_bytes(bytes: [u8; 16]) -> (r: Self)
        ensures
            r@ as nat == value_of(bytes@, Endian::Little),
    {
        proof {
            lemma_pow256_widths();
        }
        let v = read_uint(bytes.as_slice(), 16, Endian::Little);
        assert(bytes@.subrange(0, 16) =~= bytes@);
        U128(v as u128)
    }

    /// Creates a value from its representation as a byte array in big endian byte
    /// order.
    pub fn from_be_bytes(bytes: [u8; 16]) -> (r: Self)
        ensures
            r@ as nat == value_of(bytes@, Endian::Big),
    {
        proof {
            lemma_pow256_widths();
        }
        let v = read_uint(bytes.as_slice(), 16, Endian::Big);
        assert(bytes@.subrange(0, 16) =~= bytes@);
        U128(v as u128)
    }

    /// Returns the memory representation of this integer as a byte array in little
    /// endian byte order.
    pub fn to_le_bytes(self) -> (a: [u8; 16])
        ensures
            a@ == bytes_of(self@ as nat, 16, Endian::Little),
    {
        let mut a = [0u8; 16];
        write_uint(&mut a, self.0 as u128, 16, Endian::Little);
        a
    }

    /// Returns the memory representation of this integer as a byte array in big
    /// endian byte order.
    pub fn to_be_bytes(self) -> (a: [u8; 16])
        ensures
            a@ == bytes_of(self@ as nat, 16, Endian::Big),
    {
        let mut a = [0u8; 16];
        write_uint(&mut a, self.0 as u128, 16, Endian::Big);
        a
    }

    /// Gets the stored integer read in the specified byte order.
    pub fn get(self, endian: Endian) -> (v: u128)
        ensures
            endian == Endian::Little ==> v == self@,
            endian == Endian::Big ==> v as nat == swapped_unsigned(self@ as nat, 16),
    {
        match endian {
            Endian::Big => swap_u128(self.0),
            Endian::Little => self.0,
        }
    }

    /// Gets the stored integer in native byte order.
    pub fn get_ne(self) -> (v: u128)
        ensures
            v == self@,
    {
        self.0
    }

    /// Gets the stored integer in little endian byte order.
    pub fn get_le(self) -> (v: u128)
        ensures
            v == self@,
    {
        self.0
    }

    /// Gets the stored integer in big endian byte order.
    pub fn get_be(self) -> (v: u128)
        ensures
            v as nat == swapped_unsigned(self@ as nat, 16),
    {
        swap_u128(self.0)
    }

    /// Reads a [`U128`] from the first 16 byte(s) of `bytes` in byte order `endian`.
    ///
    /// # Errors
    ///
    /// Returns an out-of-bounds error if `bytes` holds fewer than 16 byte(s).
    pub fn read_aligned(bytes: &[u8], endian: Endian) -> (r: Result<U128>)
        ensures
            r is Ok <==> bytes@.len() >= 16,
            r matches Ok(x) ==> x@ as nat == value_of(bytes@.subrange(0, 16), endian),
            r matches Err(e) ==> e == Error::spec_out_of_bounds(16, bytes@.len() as usize),
    {
        match Chunk::<16>::from_bytes(bytes) {
            Ok(chunk) => match endian {
                Endian::Big => Ok(Self::from_be_chunk(chunk)),
                Endian::Little => Ok(Self::from_le_chunk(chunk)),
            },
            Err(err) => Err(err),
        }
    }

    /// Reads a [`U128`] in little endian byte order from the first 16 byte(s) of
    /// `bytes`, returning it with the bytes that follow.
    ///
    /// # Errors
    ///
    /// Returns an out-of-bounds error if `bytes` holds fewer than 16 byte(s).
    pub fn read_bytes(bytes: &[u8]) -> (r: Result<(U128, &[u8])>)
        ensures
            r is Ok <==> bytes@.len() >= 16,
            r matches Ok((x, tail)) ==> x@ as nat == value_of(bytes@.subrange(0, 16), Endian::Little)
                && tail@ == bytes@.subrange(16, bytes@.len() as int),
            r matches Err(e) ==> e == Error::spec_out_of_bounds(16, bytes@.len() as usize),
    {
        match Chunk::<16>::from_bytes(bytes) {
            Ok(chunk) => {
                let tail = vstd::slice::slice_subrange(bytes, 16, bytes.len());
                Ok((Self::from_le_chunk(chunk), tail))
            },
            Err(err) => Err(err),
        }
    }

    /// Reads a [`U128`] in little endian byte order from the first 16 byte(s) of
    /// `bytes`.
    ///
    /// # Errors
    ///
    /// Returns a size-mismatch error if `bytes` holds fewer than 16 byte(s).
    pub fn from_bytes(bytes: &[u8]) -> (r: Result<U128>)
        ensures
            r is Ok <==> bytes@.len() >= 16,
            r matches Ok(x) ==> x@ as nat == value_of(bytes@.subrange(0, 16), Endian::Little),
            r matches Err(e) ==> e == Error::spec_size_mismatch(16, bytes@.len() as usize),
    {
        if bytes.len() < 16 {
            return Err(Error::size_mismatch(16, bytes.len()));
        }
        match Chunk::<16>::from_bytes(bytes) {
            Ok(chunk) => Ok(Self::from_le_chunk(chunk)),
            Err(err) => Err(err),
        }
    }
}

impl Integer for U128 {
    type Repr = u128;

    closed spec fn spec_repr(&self) -> u128 {
        self.0
    }

    closed spec fn spec_value(&self) -> int {
        self.0 as int
    }

    fn is_zero(&self) -> (b: bool) {
        self.0 == 0
    }

    fn value(&self) -> (r: u128) {
        self.0
    }
}

impl From<u128> for U128 {
    fn from(value: u128) -> (r: U128)
        ensures
            r@ == value,
            r == U128::spec_from_inner(value),
    {
        U128(value)
    }
}

impl vstd::std_specs::convert::FromSpecImpl<u128> for U128 {
    open spec fn obeys_from_spec() -> bool {
        true
    }

    closed spec fn from_spec(value: u128) -> U128 {
        U128(value)
    }
}

impl From<U128> for u128 {
    fn from(value: U128) -> (r: u128)
        ensures
            r == value@,
    {
        value.get_le()
    }
}

impl vstd::std_specs::convert::FromSpecImpl<U128> for u128 {
    open spec fn obeys_from_spec() -> bool {
        true
    }

    open spec fn from_spec(value: U128) -> u128 {
        value@
    }
}

impl FromInner<u128> for U128 {
    /// Wraps `inner` the way [`U128::new_be`] does: its bytes are stored in reverse
    /// order.
    fn from_inner(inner: u128) -> (r: U128)
        ensures
            r@ as nat == swapped_unsigned(inner as nat, 16),
    {
        Self::new_be(inner)
    }
}

impl IntoInner<u128> for U128 {
    /// Returns the stored value, read in little endian byte order.
    fn into_inner(self) -> (r: u128)
        ensures
            r == self@,
    {
        self.get_le()
    }
}

impl U128 {
    /// Law: the value that an [`Integer`] read of `x` gives, [`Integer::value`], is the
    /// value stored in `x`: the one that [`U128::get_ne`], [`U128::get_le`] and
    /// dereferencing give.
    pub proof fn lemma_value_is_stored(x: U128)
        ensures
            x.spec_repr() == x@,
            x.spec_value() == x@ as int,
    {
    }

    /// Law: the value built around `value` stores `value`.
    pub proof fn lemma_from_inner_stores(value: u128)
        ensures
            U128::spec_from_inner(value)@ == value,
    {
    }
}

impl core::ops::Deref for U128 {
    type Target = u128;

    /// Borrows the stored value.
    fn deref(&self) -> (v: &u128)
        ensures
            *v == self@,
    {
        &self.0
    }
}

} // verus!
