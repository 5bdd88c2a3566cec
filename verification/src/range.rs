//! Range expressions that select a contiguous part of a byte slice.
use vstd::prelude::*;

verus! {

/// The full range `..`, which has no bounds.
#[verifier::external_type_specification]
pub struct ExRangeFull(core::ops::RangeFull);

/// Range expressions usable to select the bytes `start..end` of a slice of length `len`.
pub trait SliceRange {
    /// Holds when the range selects bytes within a slice of length `len`.
    spec fn spec_in_bounds(&self, len: nat) -> bool;

    /// The first index the range selects, in a slice of length `len`.
    spec fn spec_start(&self, len: nat) -> int;

    /// The index one past the last that the range selects, in a slice of length `len`.
    spec fn spec_end(&self, len: nat) -> int;

    /// Returns the start and end indices the range selects in a slice of length `len`.
    fn bounds(&self, len: usize) -> (r: (usize, usize))
        requires
            self.spec_in_bounds(len as nat),
        ensures
            r.0 == self.spec_start(len as nat),
            r.1 == self.spec_end(len as nat),
            r.0 <= r.1 <= len,
    ;
}

impl SliceRange for core::ops::RangeFull {
    open spec fn spec_in_bounds(&self, len: nat) -> bool {
        true
    }

    open spec fn spec_start(&self, len: nat) -> int {
        0
    }

    open spec fn spec_end(&self, len: nat) -> int {
        len as int
    }

    fn bounds(&self, len: usize) -> (r: (usize, usize)) {
        (0, len)
    }
}

impl SliceRange for core::ops::Range<usize> {
    open spec fn spec_in_bounds(&self, len: nat) -> bool {
        self.start <= self.end <= len
    }

    open spec fn spec_start(&self, len: nat) -> int {
        self.start as int
    }

    open spec fn spec_end(&self, len: nat) -> int {
        self.end as int
    }

    fn bounds(&self, len: usize) -> (r: (usize, usize)) {
        (self.start, self.end)
    }
}

/// The range `start..`, which has only a lower bound.
#[verifier::external_type_specification]
#[verifier::reject_recursive_types(Idx)]
pub struct ExRangeFrom<Idx>(core::ops::RangeFrom<Idx>);

/// The range `..end`, which has only an exclusive upper bound.
#[verifier::external_type_specification]
#[verifier::reject_recursive_types(Idx)]
pub struct ExRangeTo<Idx>(core::ops::RangeTo<Idx>);

/// The range `..=end`, which has only an inclusive upper bound.
#[verifier::external_type_specification]
#[verifier::reject_recursive_types(Idx)]
pub struct ExRangeToInclusive<Idx>(core::ops::RangeToInclusive<Idx>);

impl SliceRange for core::ops::RangeFrom<usize> {
    open spec fn spec_in_bounds(&self, len: nat) -> bool {
        self.start <= len
    }

    open spec fn spec_start(&self, len: nat) -> int {
        self.start as int
    }

    open spec fn spec_end(&self, len: nat) -> int {
        len as int
    }

    fn bounds(&self, len: usize) -> (r: (usize, usize)) {
        (self.start, len)
    }
}

impl SliceRange for core::ops::RangeTo<usize> {
    open spec fn spec_in_bounds(&self, len: nat) -> bool {
        self.end <= len
    }

    open spec fn spec_start(&self, len: nat) -> int {
        0
    }

    open spec fn spec_end(&self, len: nat) -> int {
        self.end as int
    }

    fn bounds(&self, len: usize) -> (r: (usize, usize)) {
        (0, self.end)
    }
}

impl SliceRange for core::ops::RangeToInclusive<usize> {
    open spec fn spec_in_bounds(&self, len: nat) -> bool {
        self.end < len
    }

    open spec fn spec_start(&self, len: nat) -> int {
        0
    }

    open spec fn spec_end(&self, len: nat) -> int {
        self.end + 1
    }

    fn bounds(&self, len: usize) -> (r: (usize, usize)) {
        (0, self.end + 1)
    }
}

/// `RangeInclusive::start` returns the lower bound the range holds.
pub assume_specification<Idx>[ core::ops::RangeInclusive::<Idx>::start ](
    r: &core::ops::RangeInclusive<Idx>,
) -> (s: &Idx)
    ensures
        *s == r@.start,
;

/// `RangeInclusive::end` returns the upper bound the range holds.
pub assume_specification<Idx>[ core::ops::RangeInclusive::<Idx>::end ](
    r: &core::ops::RangeInclusive<Idx>,
) -> (e: &Idx)
    ensures
        *e == r@.end,
;

impl SliceRange for core::ops::RangeInclusive<usize> {
    open spec fn spec_in_bounds(&self, len: nat) -> bool {
        if self@.exhausted {
            self@.start <= self@.end <= len
        } else {
            self@.start <= self@.end + 1 <= len
        }
    }

    open spec fn spec_start(&self, len: nat) -> int {
        self@.start as int
    }

    open spec fn spec_end(&self, len: nat) -> int {
        if self@.exhausted {
            self@.end as int
        } else {
            self@.end + 1
        }
    }

    fn bounds(&self, len: usize) -> (r: (usize, usize)) {
        let start = *self.start();
        let end = *self.end();
        if start <= end && !self.contains(&end) {
            (start, end)
        } else {
            (start, end + 1)
        }
    }
}

} // verus!
