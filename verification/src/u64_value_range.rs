//! A closed interval of 64-bit amounts, used to report every input that a
//! rounded forward application could have started from.

use vstd::prelude::*;

verus! {

/// A closed inclusive interval `[min, max]` over `u64` values.
///
/// Returned by reverse computations: because floor/ceil rounding is not
/// injective, a rounded output pins the original input down only to an
/// interval. Whenever a range is returned successfully, `min <= max`.
#[derive(Debug, Copy, Clone, PartialEq, Eq, Structural)]
pub struct U64ValueRange {
    /// The smallest consistent value.
    pub min: u64,
    /// The largest consistent value.
    pub max: u64,
}

impl U64ValueRange {
    /// A range is well formed when it is nonempty.
    pub open spec fn is_nonempty(self) -> bool {
        self.min <= self.max
    }

    /// True when `x` lies inside the interval.
    pub open spec fn spec_contains(self, x: u64) -> bool {
        self.min <= x <= self.max
    }

    /// True when `x` lies inside the interval.
    pub fn contains(&self, x: u64) -> (r: bool)
        ensures
            r == self.spec_contains(x),
    {
        self.min <= x && x <= self.max
    }
}

} // verus!
