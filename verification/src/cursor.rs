//! Cursor primitives for traversing buffers.
use vstd::prelude::*;

verus! {

/// A position, in bytes, within a buffer.
#[derive(Clone, Copy, Debug, Default, PartialEq, Eq, Hash, PartialOrd, Ord)]
pub struct BytePos {
    value: usize,
}

impl BytePos {
    /// The position, as a number of bytes.
    pub closed spec fn spec_get(self) -> usize {
        self.value
    }

    /// Creates a position at `value` bytes.
    pub fn new(value: usize) -> (p: BytePos)
        ensures
            p.spec_get() == value,
    {
        BytePos { value }
    }

    /// Returns the position as a number of bytes.
    pub fn get(&self) -> (v: usize)
        ensures
            v == self.spec_get(),
    {
        self.value
    }

    /// Returns a mutable reference to the number of bytes; whatever is stored through
    /// it becomes the new position.
    pub fn get_mut(&mut self) -> (r: &mut usize)
        ensures
            *r == old(self).spec_get(),
            final(self).spec_get() == *final(r),
    {
        &mut self.value
    }

    /// Moves the position forward by `count` bytes.
    pub fn advance(&mut self, count: usize)
        requires
            old(self).spec_get() + count <= usize::MAX,
        ensures
            final(self).spec_get() == old(self).spec_get() + count,
    {
        self.value = self.value + count;
    }

    /// Returns the position `count` bytes further on, or `usize::MAX` if that
    /// overflows.
    pub fn saturating_add(self, count: usize) -> (p: BytePos)
        ensures
            p.spec_get() == (if self.spec_get() + count <= usize::MAX {
                (self.spec_get() + count) as usize
            } else {
                usize::MAX
            }),
    {
        let new_pos = self.value.saturating_add(count);
        BytePos { value: new_pos }
    }
}

impl BytePos {
    /// The position at `value` bytes.
    pub closed spec fn spec_new(value: usize) -> BytePos {
        BytePos { value }
    }
}

impl From<usize> for BytePos {
    fn from(value: usize) -> (p: BytePos)
        ensures
            p.spec_get() == value,
    {
        BytePos { value }
    }
}

impl vstd::std_specs::convert::FromSpecImpl<usize> for BytePos {
    open spec fn obeys_from_spec() -> bool {
        true
    }

    open spec fn from_spec(value: usize) -> BytePos {
        BytePos::spec_new(value)
    }
}

impl core::ops::Add for BytePos {
    type Output = BytePos;

    /// Returns the position as far on as both positions together.
    fn add(self, other: BytePos) -> (p: BytePos) {
        BytePos::new(self.get() + other.get())
    }
}

impl vstd::std_specs::ops::AddSpecImpl for BytePos {
    open spec fn obeys_add_spec() -> bool {
        true
    }

    open spec fn add_req(self, other: BytePos) -> bool {
        self.spec_get() + other.spec_get() <= usize::MAX
    }

    open spec fn add_spec(self, other: BytePos) -> BytePos {
        BytePos::spec_new((self.spec_get() + other.spec_get()) as usize)
    }
}

impl core::ops::Sub for BytePos {
    type Output = BytePos;

    /// Returns the distance from `rhs` on to `self`, or position 0 if `rhs` lies
    /// further on.
    fn sub(self, rhs: BytePos) -> (p: BytePos) {
        BytePos::from(self.get().saturating_sub(rhs.get()))
    }
}

impl vstd::std_specs::ops::SubSpecImpl for BytePos {
    open spec fn obeys_sub_spec() -> bool {
        true
    }

    open spec fn sub_req(self, rhs: BytePos) -> bool {
        true
    }

    open spec fn sub_spec(self, rhs: BytePos) -> BytePos {
        BytePos::spec_new(
            if self.spec_get() >= rhs.spec_get() {
                (self.spec_get() - rhs.spec_get()) as usize
            } else {
                0
            },
        )
    }
}

impl core::ops::Add<usize> for BytePos {
    type Output = usize;

    /// Returns the number of bytes `rhs` bytes past this position.
    fn add(self, rhs: usize) -> (n: usize) {
        self.value + rhs
    }
}

impl vstd::std_specs::ops::AddSpecImpl<usize> for BytePos {
    open spec fn obeys_add_spec() -> bool {
        true
    }

    open spec fn add_req(self, rhs: usize) -> bool {
        self.spec_get() + rhs <= usize::MAX
    }

    open spec fn add_spec(self, rhs: usize) -> usize {
        (self.spec_get() + rhs) as usize
    }
}

} // verus!
