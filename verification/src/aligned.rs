//! Types whose layout has a known alignment, and a check that their size leaves no
//! trailing padding.
use vstd::prelude::*;

use crate::integer::{I128, I16, I32, I64, I8, U128, U16, U32, U64, U8};

verus! {

/// Types that can be read from memory that is suitably aligned for them.
pub trait Aligned: Sized + Copy {
    /// Returns the minimum alignment, in bytes, of this value's type.
    fn min_align(&self) -> (n: usize)
        ensures
            n == vstd::layout::spec_align_of_val::<Self>(self),
    {
        core::mem::align_of_val(self)
    }
}

/// Types whose size is a whole number of alignment units, so that a value carries
/// no trailing padding.
pub trait NoPadding: Aligned {
    /// Returns `true` if the size of the type is a multiple of its alignment. The
    /// layout rules of the language make this hold of every type.
    fn verify_padding(&self) -> (b: bool)
        ensures
            b == (vstd::layout::size_of::<Self>() % vstd::layout::align_of::<Self>() == 0),
            b,
    {
        vstd::layout::layout_for_type_is_valid::<Self>();
        let size = core::mem::size_of::<Self>();
        let alignment = core::mem::align_of::<Self>();
        let expected_padding = alignment - (size % alignment);
        expected_padding == alignment || expected_padding == 0
    }
}

impl<T: Aligned> NoPadding for T {}

impl<T: Aligned, const N: usize> Aligned for [T; N] {}

impl Aligned for u8 {}

impl Aligned for u16 {}

impl Aligned for u32 {}

impl Aligned for u64 {}

impl Aligned for u128 {}

impl Aligned for usize {}

impl Aligned for i8 {}

impl Aligned for i16 {}

impl Aligned for i32 {}

impl Aligned for i64 {}

impl Aligned for i128 {}

impl Aligned for isize {}

impl Aligned for bool {}

impl Aligned for char {}

impl Aligned for U8 {}

impl Aligned for U16 {}

impl Aligned for U32 {}

impl Aligned for U64 {}

impl Aligned for U128 {}

impl Aligned for I8 {}

impl Aligned for I16 {}

impl Aligned for I32 {}

impl Aligned for I64 {}

impl Aligned for I128 {}

} // verus!
