//! The result of splitting an amount into a remainder and a charged fee.

use vstd::prelude::*;

verus! {

/// What is left of an amount after a fee was deducted, and the fee that
/// was charged.
///
/// The intended invariant, established by every constructor in this
/// crate, is exactness: `amt_after_fee + fees_charged` equals the
/// original amount, with no rounding residue dropped or duplicated.
#[derive(Debug, Copy, Clone, PartialEq, Eq, Structural, Default)]
pub struct AmtsAfterFee {
    /// The portion of the original amount that remains.
    pub amt_after_fee: u64,
    /// The portion of the original amount charged as fee.
    pub fees_charged: u64,
}

impl AmtsAfterFee {
    /// True when this split accounts exactly for `amount`.
    pub open spec fn is_exact_split_of(self, amount: u64) -> bool {
        self.amt_after_fee + self.fees_charged == amount
    }
}

} // verus!
