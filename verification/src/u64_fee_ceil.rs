//! A proportional fee that rounds in the protocol's favor: the remainder
//! is rounded down, so the fee charged is rounded up.

use vstd::arithmetic::div_mod::{lemma_div_by_multiple, lemma_div_of0};
use vstd::prelude::*;

use crate::amts_after_fee::AmtsAfterFee;
use crate::div_char::{
    lemma_div_char, lemma_ge_ceil_iff, lemma_le_div_iff, lemma_scaled_floor_le,
    lemma_u64_mul_bound,
};
use crate::math_error::MathError;
use crate::rounding::ReversibleRatio;
use crate::u64_value_range::U64ValueRange;

verus! {

/// A fee ratio `fee_num / fee_denom` deducted from u64 token amounts:
/// `amt_after_fee = floor(amt * (fee_denom - fee_num) / fee_denom)`,
/// which maximizes the fee charged.
///
/// Valid iff `fee_num <= fee_denom` (a fee of at most 100%);
/// `fee_denom == 0` is treated as "no fee".
#[derive(Debug, Copy, Clone, Default, PartialEq, Eq, Structural)]
pub struct U64FeeCeil {
    pub fee_num: u64,
    pub fee_denom: u64,
}

impl U64FeeCeil {
    /// A fee specification is valid when it charges at most 100%.
    pub open spec fn spec_is_valid(self) -> bool {
        self.fee_num <= self.fee_denom
    }

    /// The exact remainder after the fee: the whole amount when
    /// `fee_denom == 0`, else `floor(amt * (fee_denom - fee_num) / fee_denom)`.
    pub open spec fn spec_amt_after_fee(self, amt: u64) -> int
        recommends
            self.spec_is_valid(),
    {
        if self.fee_denom == 0 {
            amt as int
        } else {
            (amt * (self.fee_denom - self.fee_num)) / (self.fee_denom as int)
        }
    }

    /// Splits `amt` into the remainder and the fee charged.
    ///
    /// Fails with `InvalidFeeSpec` exactly when the fee exceeds 100%.
    /// On success the split is exact — `amt_after_fee + fees_charged ==
    /// amt` — because the fee is taken by direct subtraction from the
    /// remainder, never re-derived from the ratio; a zero fee returns the
    /// amount untouched.
    pub fn apply(&self, amt: u64) -> (res: Result<AmtsAfterFee, MathError>)
        ensures
            res is Ok <==> self.spec_is_valid(),
            res matches Err(e) ==> e == MathError::InvalidFeeSpec,
            res matches Ok(a) ==> {
                &&& a.amt_after_fee == self.spec_amt_after_fee(amt)
                &&& a.is_exact_split_of(amt)
                &&& a.amt_after_fee <= amt
            },
            res matches Ok(a) ==> ((self.fee_num == 0) ==> (a.amt_after_fee == amt
                && a.fees_charged == 0)),
    {
        let n = self.fee_num;
        let d = self.fee_denom;
        if n > d {
            return Err(MathError::InvalidFeeSpec);
        }
        if d == 0 {
            return Ok(AmtsAfterFee { amt_after_fee: amt, fees_charged: 0 });
        }
        let k = d - n;
        proof {
            lemma_u64_mul_bound(amt, k);
            lemma_scaled_floor_le(amt as int, k as int, d as int);
            if n == 0 {
                lemma_div_by_multiple(amt as int, d as int);
            }
        }
        let q: u128 = ((amt as u128) * (k as u128)) / (d as u128);
        let amt_after_fee = q as u64;
        Ok(AmtsAfterFee { amt_after_fee, fees_charged: amt - amt_after_fee })
    }

    /// Returns a possible amount that was fed into `self.apply()`: the
    /// smallest original amount whose remainder after the fee is
    /// `amt_after_fee`.
    ///
    /// Returns `amt_after_fee` itself when `fee_num == 0` or
    /// `fee_denom == 0` (no fee was ever charged).
    ///
    /// Fails with `InvalidFeeSpec` exactly when `fee_num > fee_denom`
    /// (fee over 100%), and with `Overflow` exactly when no 64-bit
    /// amount has that remainder.
    pub fn pseudo_reverse(&self, amt_after_fee: u64) -> (res: Result<u64, MathError>)
        ensures
            !self.spec_is_valid() <==> res == Err::<u64, MathError>(MathError::InvalidFeeSpec),
            res matches Ok(v) ==> {
                &&& self.spec_amt_after_fee(v) == amt_after_fee
                &&& forall|x: u64| #![trigger self.spec_amt_after_fee(x)]
                    x < v ==> self.spec_amt_after_fee(x) != amt_after_fee
            },
            self.spec_is_valid() ==> ((res is Ok) <==> exists|x: u64|
                #[trigger] self.spec_amt_after_fee(x) == amt_after_fee),
            self.fee_num == 0 ==> res == Ok::<u64, MathError>(amt_after_fee),
    {
        proof {
            if self.fee_num == 0 {
                if self.fee_denom > 0 {
                    lemma_div_by_multiple(amt_after_fee as int, self.fee_denom as int);
                }
                assert(self.spec_apply(amt_after_fee) == amt_after_fee);
            }
        }
        match self.reverse(amt_after_fee) {
            Ok(range) => {
                proof {
                    assert(self.spec_apply(range.min) == amt_after_fee);
                    assert forall|x: u64| x < range.min implies
                        #[trigger] self.spec_amt_after_fee(x) != amt_after_fee by {
                        assert(self.spec_apply(x) != amt_after_fee);
                    }
                    if self.fee_num == 0 && self.fee_denom > 0 {
                        lemma_div_by_multiple(range.min as int, self.fee_denom as int);
                    }
                }
                Ok(range.min)
            },
            Err(e) => {
                proof {
                    if self.spec_is_valid() {
                        assert forall|x: u64| #[trigger] self.spec_amt_after_fee(x)
                            != amt_after_fee by {
                            assert(self.spec_apply(x) != amt_after_fee);
                        }
                    }
                }
                Err(e)
            },
        }
    }
}

impl ReversibleRatio for U64FeeCeil {
    /// Valid when the fee is at most 100%.
    open spec fn spec_valid(&self) -> bool {
        self.spec_is_valid()
    }

    /// Forward application of a fee is the remainder it leaves.
    open spec fn spec_apply(&self, amount: u64) -> int {
        self.spec_amt_after_fee(amount)
    }

    /// The remainder after the fee, as a bare amount.
    fn apply(&self, amount: u64) -> (res: Result<u64, MathError>) {
        let n = self.fee_num;
        let d = self.fee_denom;
        if n > d {
            return Err(MathError::InvalidFeeSpec);
        }
        if d == 0 {
            return Ok(amount);
        }
        let k = d - n;
        proof {
            lemma_u64_mul_bound(amount, k);
            lemma_scaled_floor_le(amount as int, k as int, d as int);
        }
        let q: u128 = ((amount as u128) * (k as u128)) / (d as u128);
        Ok(q as u64)
    }

    /// The full closed interval of original amounts whose remainder after
    /// the fee is `amt_after_apply`.
    fn reverse(&self, amt_after_apply: u64) -> (res: Result<U64ValueRange, MathError>) {
        let n = self.fee_num;
        let d = self.fee_denom;
        let y = amt_after_apply;
        if n > d {
            return Err(MathError::InvalidFeeSpec);
        }
        if d == 0 {
            // No fee: the map is the identity, so the only consistent
            // amount is y itself.
            proof {
                assert(self.spec_apply(y) == y);
            }
            return Ok(U64ValueRange { min: y, max: y });
        }
        let k = d - n;
        if k == 0 {
            // A 100% fee nets zero from every amount.
            proof {
                lemma_div_of0(d as int);
            }
            if y == 0 {
                proof {
                    assert(self.spec_apply(0u64) == 0);
                }
                return Ok(U64ValueRange { min: 0, max: u64::MAX });
            } else {
                return Err(MathError::Overflow);
            }
        }
        proof {
            lemma_u64_mul_bound(y, d);
        }
        let yd: u128 = (y as u128) * (d as u128);
        // Smallest x with x * k >= y * d.
        let lo: u128 = (yd + (k as u128 - 1)) / (k as u128);
        // Largest x with x * k <= y * d + d - 1.
        let hi: u128 = (yd + (d as u128 - 1)) / (k as u128);
        proof {
            assert forall|x: u64| self.spec_apply(x) == y <==> lo <= x <= hi by {
                lemma_u64_mul_bound(x, k);
                lemma_div_char(x * k, y as int, d as int);
                lemma_ge_ceil_iff(x as int, yd as int, k as int);
                lemma_le_div_iff(x as int, yd as int + d - 1, k as int);
            }
        }
        if lo > u64::MAX as u128 || lo > hi {
            return Err(MathError::Overflow);
        }
        let lo64: u64 = lo as u64;
        let hi64: u64 = if hi > u64::MAX as u128 {
            u64::MAX
        } else {
            hi as u64
        };
        proof {
            assert(self.spec_apply(lo64) == y);
        }
        Ok(U64ValueRange { min: lo64, max: hi64 })
    }
}

} // verus!
