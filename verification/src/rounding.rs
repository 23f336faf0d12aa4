//! Forward application of a ratio under an explicit rounding direction,
//! and the reverse computation that characterizes every input consistent
//! with a rounded output.

use vstd::prelude::*;

use crate::div_char::{
    lemma_div_char, lemma_ge_ceil_iff, lemma_le_div_iff, lemma_mul_ge_factor, lemma_u64_mul_bound,
};
use crate::math_error::MathError;
use crate::u64_ratio::U64Ratio;
use crate::u64_value_range::U64ValueRange;

verus! {

/// A capability unifying "apply a ratio forward under a rounding policy"
/// and "characterize all inputs consistent with a given output".
///
/// Implemented by a [`U64Ratio`] under either rounding policy, for which
/// every value is a well-formed specification, and by fee types, which
/// reject a specification whose numerator exceeds its denominator.
pub trait ReversibleRatio {
    /// Whether this value is a well-formed ratio specification. Both
    /// operations fail with `InvalidFeeSpec` on an ill-formed one.
    spec fn spec_valid(&self) -> bool;

    /// The exact mathematical result of the forward application, before
    /// the check that it is representable in 64 bits.
    spec fn spec_apply(&self, amount: u64) -> int;

    /// Applies the ratio to `amount`.
    ///
    /// Returns the rounded result exactly when it fits in 64 bits, and
    /// `Overflow` otherwise.
    fn apply(&self, amount: u64) -> (res: Result<u64, MathError>)
        ensures
            !self.spec_valid() ==> res == Err::<u64, MathError>(MathError::InvalidFeeSpec),
            self.spec_valid() ==> {
                &&& res matches Ok(v) ==> v == self.spec_apply(amount)
                &&& res is Ok <==> self.spec_apply(amount) <= u64::MAX
                &&& res matches Err(e) ==> e == MathError::Overflow
            },
    ;

    /// Returns the full closed interval of amounts that the rounding
    /// policy maps onto `amt_after_apply`: rounding is not injective, so
    /// an output pins the input down only to a range.
    ///
    /// Fails with `Overflow` exactly when no 64-bit amount maps onto
    /// `amt_after_apply`.
    fn reverse(&self, amt_after_apply: u64) -> (res: Result<U64ValueRange, MathError>)
        ensures
            !self.spec_valid() ==> res == Err::<U64ValueRange, MathError>(
                MathError::InvalidFeeSpec,
            ),
            self.spec_valid() ==> {
                &&& res matches Ok(range) ==> range.is_nonempty()
                &&& res matches Ok(range) ==> forall|x: u64| #![trigger self.spec_apply(x)]
                    range.spec_contains(x) <==> self.spec_apply(x) == amt_after_apply
                &&& res is Ok <==> exists|x: u64| #[trigger] self.spec_apply(x)
                    == amt_after_apply
                &&& res matches Err(e) ==> e == MathError::Overflow
            },
    ;
}

/// Directs the application of the wrapped ratio to round down.
#[derive(Debug, Copy, Clone, Default)]
pub struct FloorDiv<T>(pub T);

/// Directs the application of the wrapped ratio to round up.
#[derive(Debug, Copy, Clone, Default)]
pub struct CeilDiv<T>(pub T);

impl ReversibleRatio for FloorDiv<U64Ratio> {
    /// Every ratio is a well-formed specification under a rounding
    /// policy; a zero denominator is the defined degenerate case.
    open spec fn spec_valid(&self) -> bool {
        true
    }

    /// `floor(amount * num / denom)`, or zero for a degenerate ratio
    /// (zero numerator or zero denominator).
    open spec fn spec_apply(&self, amount: u64) -> int {
        if self.0.num == 0 || self.0.denom == 0 {
            0
        } else {
            (amount * self.0.num) / (self.0.denom as int)
        }
    }

    fn apply(&self, amount: u64) -> (res: Result<u64, MathError>) {
        let num = self.0.num;
        let denom = self.0.denom;
        if num == 0 || denom == 0 {
            return Ok(0);
        }
        proof {
            lemma_u64_mul_bound(amount, num);
        }
        let prod: u128 = (amount as u128) * (num as u128);
        let q: u128 = prod / (denom as u128);
        if q > u64::MAX as u128 {
            Err(MathError::Overflow)
        } else {
            Ok(q as u64)
        }
    }

    fn reverse(&self, amt_after_apply: u64) -> (res: Result<U64ValueRange, MathError>) {
        let num = self.0.num;
        let denom = self.0.denom;
        let y = amt_after_apply;
        if num == 0 || denom == 0 {
            if y == 0 {
                // Every amount maps to zero under a degenerate ratio.
                proof {
                    assert(self.spec_apply(0u64) == 0);
                }
                return Ok(U64ValueRange { min: 0, max: u64::MAX });
            } else {
                return Err(MathError::Overflow);
            }
        }
        proof {
            lemma_u64_mul_bound(y, denom);
        }
        let yd: u128 = (y as u128) * (denom as u128);
        // Smallest x with x * num >= y * denom.
        let lo: u128 = (yd + (num as u128 - 1)) / (num as u128);
        // Largest x with x * num <= y * denom + denom - 1.
        let hi: u128 = (yd + (denom as u128 - 1)) / (num as u128);
        proof {
            assert forall|x: u64| self.spec_apply(x) == y <==> lo <= x <= hi by {
                lemma_u64_mul_bound(x, num);
                lemma_div_char(x * num, y as int, denom as int);
                lemma_ge_ceil_iff(x as int, yd as int, num as int);
                lemma_le_div_iff(x as int, yd as int + denom - 1, num as int);
            }
        }
        if lo > u64::MAX as u128 || lo > hi {
            return Err(MathError::Overflow);
        }
        let lo64: u64 = lo as u64;
        let hi64: u64 = if hi > u64::MAX as u128 {
            u64::MAX
        } else {
            hi as u64
        };
        proof {
            assert(self.spec_apply(lo64) == y);
        }
        Ok(U64ValueRange { min: lo64, max: hi64 })
    }
}

impl ReversibleRatio for CeilDiv<U64Ratio> {
    /// Every ratio is a well-formed specification under a rounding
    /// policy; a zero denominator is the defined degenerate case.
    open spec fn spec_valid(&self) -> bool {
        true
    }

    /// `ceil(amount * num / denom)`, or zero for a degenerate ratio
    /// (zero numerator or zero denominator).
    open spec fn spec_apply(&self, amount: u64) -> int {
        if self.0.num == 0 || self.0.denom == 0 {
            0
        } else {
            (amount * self.0.num + self.0.denom - 1) / (self.0.denom as int)
        }
    }

    fn apply(&self, amount: u64) -> (res: Result<u64, MathError>) {
        let num = self.0.num;
        let denom = self.0.denom;
        if num == 0 || denom == 0 {
            return Ok(0);
        }
        proof {
            lemma_u64_mul_bound(amount, num);
        }
        let prod: u128 = (amount as u128) * (num as u128);
        let q: u128 = (prod + (denom as u128 - 1)) / (denom as u128);
        if q > u64::MAX as u128 {
            Err(MathError::Overflow)
        } else {
            Ok(q as u64)
        }
    }

    fn reverse(&self, amt_after_apply: u64) -> (res: Result<U64ValueRange, MathError>) {
        let num = self.0.num;
        let denom = self.0.denom;
        let y = amt_after_apply;
        if num == 0 || denom == 0 {
            if y == 0 {
                proof {
                    assert(self.spec_apply(0u64) == 0);
                }
                return Ok(U64ValueRange { min: 0, max: u64::MAX });
            } else {
                return Err(MathError::Overflow);
            }
        }
        proof {
            lemma_u64_mul_bound(y, denom);
        }
        let yd: u128 = (y as u128) * (denom as u128);
        if y == 0 {
            // Rounding up sends an amount to zero exactly when the
            // product is zero, so the only consistent input is zero.
            proof {
                assert forall|x: u64| self.spec_apply(x) == y <==> x == 0 by {
                    lemma_u64_mul_bound(x, num);
                    lemma_div_char(x * num + denom - 1, 0, denom as int);
                    if x >= 1 {
                        lemma_mul_ge_factor(x as int, num as int);
                    }
                }
                assert(self.spec_apply(0u64) == 0);
            }
            return Ok(U64ValueRange { min: 0, max: 0 });
        }
        // Rounding up maps x onto y exactly when x * num lies in
        // [y*denom - denom + 1, y*denom].
        proof {
            lemma_mul_ge_factor(y as int, denom as int);
        }
        let a: u128 = yd - (denom as u128) + 1;
        // Smallest x with x * num >= a.
        let lo: u128 = (a + (num as u128 - 1)) / (num as u128);
        // Largest x with x * num <= y * denom.
        let hi: u128 = yd / (num as u128);
        proof {
            assert forall|x: u64| self.spec_apply(x) == y <==> lo <= x <= hi by {
                lemma_u64_mul_bound(x, num);
                lemma_div_char(x * num + denom - 1, y as int, denom as int);
                lemma_ge_ceil_iff(x as int, a as int, num as int);
                lemma_le_div_iff(x as int, yd as int, num as int);
            }
        }
        if lo > u64::MAX as u128 || lo > hi {
            return Err(MathError::Overflow);
        }
        let lo64: u64 = lo as u64;
        let hi64: u64 = if hi > u64::MAX as u128 {
            u64::MAX
        } else {
            hi as u64
        };
        proof {
            assert(self.spec_apply(lo64) == y);
        }
        Ok(U64ValueRange { min: lo64, max: hi64 })
    }
}

} // verus!
