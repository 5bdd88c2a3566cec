//! Traits for types with a fixed, known layout: their size in bytes, their zero value
//! and the bytes that comprise them.
use vstd::prelude::*;

use crate::bytes::Bytes;
use crate::chunk::Chunk;
use crate::integer::{I128, I16, I32, I64, I8, U128, U16, U32, U64, U8};
use crate::source::Slice;

verus! {

/// Types with a size, in bytes, that is known from the type alone.
pub trait Abi: Sized {
    /// The number of bytes a value of this type occupies.
    spec fn spec_size() -> nat;

    /// Returns the number of bytes this value occupies.
    fn size(&self) -> (n: usize)
        requires
            Self::spec_size() <= usize::MAX,
        ensures
            n == Self::spec_size(),
    ;

    /// Returns the minimum alignment, in bytes, that the type requires.
    fn alignment(&self) -> (n: usize)
        ensures
            n == vstd::layout::align_of::<Self>(),
    {
        core::mem::align_of::<Self>()
    }
}

/// Types that can be represented by the all-zero byte pattern.
pub trait Zeroable: Sized {
    /// The value whose bytes are all zero.
    spec fn spec_zero() -> Self;

    /// Returns the value whose bytes are all zero.
    fn zero() -> (z: Self)
        ensures
            z == Self::spec_zero(),
    ;
}

/// Types that can be viewed as a borrowed slice of bytes.
pub trait BytesOf {
    /// The bytes comprising the value.
    spec fn spec_bytes_of(&self) -> Seq<u8>;

    /// Gets the bytes comprising the value.
    fn bytes_of(&self) -> (s: &[u8])
        ensures
            s@ == self.spec_bytes_of(),
    ;
}

impl Abi for u8 {
    open spec fn spec_size() -> nat {
        1
    }

    fn size(&self) -> (n: usize) {
        1
    }
}

impl Zeroable for u8 {
    open spec fn spec_zero() -> u8 {
        0
    }

    fn zero() -> (z: u8) {
        0
    }
}

impl Abi for u16 {
    open spec fn spec_size() -> nat {
        2
    }

    fn size(&self) -> (n: usize) {
        2
    }
}

impl Zeroable for u16 {
    open spec fn spec_zero() -> u16 {
        0
    }

    fn zero() -> (z: u16) {
        0
    }
}

impl Abi for u32 {
    open spec fn spec_size() -> nat {
        4
    }

    fn size(&self) -> (n: usize) {
        4
    }
}

impl Zeroable for u32 {
    open spec fn spec_zero() -> u32 {
        0
    }

    fn zero() -> (z: u32) {
        0
    }
}

impl Abi for u64 {
    open spec fn spec_size() -> nat {
        8
    }

    fn size(&self) -> (n: usize) {
        8
    }
}

impl Zeroable for u64 {
    open spec fn spec_zero() -> u64 {
        0
    }

    fn zero() -> (z: u64) {
        0
    }
}

impl Abi for u128 {
    open spec fn spec_size() -> nat {
        16
    }

    fn size(&self) -> (n: usize) {
        16
    }
}

impl Zeroable for u128 {
    open spec fn spec_zero() -> u128 {
        0
    }

    fn zero() -> (z: u128) {
        0
    }
}

impl Abi for i8 {
    open spec fn spec_size() -> nat {
        1
    }

    fn size(&self) -> (n: usize) {
        1
    }
}

impl Zeroable for i8 {
    open spec fn spec_zero() -> i8 {
        0
    }

    fn zero() -> (z: i8) {
        0
    }
}

impl Abi for i16 {
    open spec fn spec_size() -> nat {
        2
    }

    fn size(&self) -> (n: usize) {
        2
    }
}

impl Zeroable for i16 {
    open spec fn spec_zero() -> i16 {
        0
    }

    fn zero() -> (z: i16) {
        0
    }
}

impl Abi for i32 {
    open spec fn spec_size() -> nat {
        4
    }

    fn size(&self) -> (n: usize) {
        4
    }
}

impl Zeroable for i32 {
    open spec fn spec_zero() -> i32 {
        0
    }

    fn zero() -> (z: i32) {
        0
    }
}

impl Abi for i64 {
    open spec fn spec_size() -> nat {
        8
    }

    fn size(&self) -> (n: usize) {
        8
    }
}

impl Zeroable for i64 {
    open spec fn spec_zero() -> i64 {
        0
    }

    fn zero() -> (z: i64) {
        0
    }
}

impl Abi for i128 {
    open spec fn spec_size() -> nat {
        16
    }

    fn size(&self) -> (n: usize) {
        16
    }
}

impl Zeroable for i128 {
    open spec fn spec_zero() -> i128 {
        0
    }

    fn zero() -> (z: i128) {
        0
    }
}

impl Abi for U8 {
    open spec fn spec_size() -> nat {
        1
    }

    fn size(&self) -> (n: usize) {
        1
    }
}

impl Zeroable for U8 {
    open spec fn spec_zero() -> U8 {
        U8::spec_from_inner(0)
    }

    fn zero() -> (z: U8) {
        U8::new(0)
    }
}

impl Abi for U16 {
    open spec fn spec_size() -> nat {
        2
    }

    fn size(&self) -> (n: usize) {
        2
    }
}

impl Zeroable for U16 {
    open spec fn spec_zero() -> U16 {
        U16::spec_from_inner(0)
    }

    fn zero() -> (z: U16) {
        U16::new(0)
    }
}

impl Abi for U32 {
    open spec fn spec_size() -> nat {
        4
    }

    fn size(&self) -> (n: usize) {
        4
    }
}

impl Zeroable for U32 {
    open spec fn spec_zero() -> U32 {
        U32::spec_from_inner(0)
    }

    fn zero() -> (z: U32) {
        U32::new(0)
    }
}

impl Abi for U64 {
    open spec fn spec_size() -> nat {
        8
    }

    fn size(&self) -> (n: usize) {
        8
    }
}

impl Zeroable for U64 {
    open spec fn spec_zero() -> U64 {
        U64::spec_from_inner(0)
    }

    fn zero() -> (z: U64) {
        U64::new(0)
    }
}

impl Abi for U128 {
    open spec fn spec_size() -> nat {
        16
    }

    fn size(&self) -> (n: usize) {
        16
    }
}

impl Zeroable for U128 {
    open spec fn spec_zero() -> U128 {
        U128::spec_from_inner(0)
    }

    fn zero() -> (z: U128) {
        U128::new(0)
    }
}

impl Abi for I8 {
    open spec fn spec_size() -> nat {
        1
    }

    fn size(&self) -> (n: usize) {
        1
    }
}

impl Zeroable for I8 {
    open spec fn spec_zero() -> I8 {
        I8::spec_from_inner(0)
    }

    fn zero() -> (z: I8) {
        I8::new(0)
    }
}

impl Abi for I16 {
    open spec fn spec_size() -> nat {
        2
    }

    fn size(&self) -> (n: usize) {
        2
    }
}

impl Zeroable for I16 {
    open spec fn spec_zero() -> I16 {
        I16::spec_from_inner(0)
    }

    fn zero() -> (z: I16) {
        I16::new(0)
    }
}

impl Abi for I32 {
    open spec fn spec_size() -> nat {
        4
    }

    fn size(&self) -> (n: usize) {
        4
    }
}

impl Zeroable for I32 {
    open spec fn spec_zero() -> I32 {
        I32::spec_from_inner(0)
    }

    fn zero() -> (z: I32) {
        I32::new(0)
    }
}

impl Abi for I64 {
    open spec fn spec_size() -> nat {
        8
    }

    fn size(&self) -> (n: usize) {
        8
    }
}

impl Zeroable for I64 {
    open spec fn spec_zero() -> I64 {
        I64::spec_from_inner(0)
    }

    fn zero() -> (z: I64) {
        I64::new(0)
    }
}

impl Abi for I128 {
    open spec fn spec_size() -> nat {
        16
    }

    fn size(&self) -> (n: usize) {
        16
    }
}

impl Zeroable for I128 {
    open spec fn spec_zero() -> I128 {
        I128::spec_from_inner(0)
    }

    fn zero() -> (z: I128) {
        I128::new(0)
    }
}

impl<T: Abi, const N: usize> Abi for [T; N] {
    open spec fn spec_size() -> nat {
        (N as nat) * T::spec_size()
    }

    fn size(&self) -> (n: usize) {
        if N == 0 {
            0
        } else {
            proof {
                vstd::arithmetic::mul::lemma_mul_inequality(1, N as int, T::spec_size() as int);
            }
            let elem = self[0].size();
            N * elem
        }
    }
}

impl<const N: usize> Abi for Chunk<N> {
    open spec fn spec_size() -> nat {
        N as nat
    }

    fn size(&self) -> (n: usize) {
        N
    }
}

impl<const N: usize> BytesOf for Chunk<N> {
    open spec fn spec_bytes_of(&self) -> Seq<u8> {
        self@
    }

    fn bytes_of(&self) -> (s: &[u8]) {
        self.as_bytes()
    }
}

impl<'a> BytesOf for Bytes<'a> {
    open spec fn spec_bytes_of(&self) -> Seq<u8> {
        self@
    }

    fn bytes_of(&self) -> (s: &[u8]) {
        self.as_slice()
    }
}

impl<'a> BytesOf for crate::contiguous::Bytes<'a> {
    open spec fn spec_bytes_of(&self) -> Seq<u8> {
        self@
    }

    fn bytes_of(&self) -> (s: &[u8]) {
        self.as_slice()
    }
}

impl<'a> BytesOf for Slice<'a> {
    open spec fn spec_bytes_of(&self) -> Seq<u8> {
        self@
    }

    fn bytes_of(&self) -> (s: &[u8]) {
        self.as_slice()
    }
}

impl<const N: usize> BytesOf for [u8; N] {
    open spec fn spec_bytes_of(&self) -> Seq<u8> {
        self@
    }

    fn bytes_of(&self) -> (s: &[u8]) {
        self.as_slice()
    }
}

} // verus!
