//! Unit identity.

use vstd::prelude::*;

verus! {

/// Unique identifier for a unit: a `u64` wrapper with a distinct type
/// name that allows no arithmetic and no mutation of the inner value.
#[derive(Debug, Clone, Copy, PartialEq, Eq, Hash, Structural)]
pub struct Tag(u64);

impl Tag {
    /// The raw number, as contracts see it.
    pub closed spec fn spec_num(self) -> u64 {
        self.0
    }

    /// Wrap a raw unit tag.
    pub fn new(num: u64) -> (r: Tag)
        ensures
            r.spec_num() == num,
    {
        Tag(num)
    }

    /// The raw number.
    pub fn num(self) -> (n: u64)
        ensures
            n == self.spec_num(),
    {
        self.0
    }
}

} // verus!
