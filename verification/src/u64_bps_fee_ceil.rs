//! A fee expressed as an integer count of basis points (1 bps = 1/10,000)
//! over the fixed denominator of 10,000, delegating to [`U64FeeCeil`].

use vstd::prelude::*;

use crate::amts_after_fee::AmtsAfterFee;
use crate::math_error::MathError;
use crate::u64_fee_ceil::U64FeeCeil;

verus! {

/// The implicit denominator of a basis-point fee.
pub const BPS_DENOMINATOR: u16 = 10_000;

/// A bps fee to charge where the value must be at most 10,000:
/// `amt_after_fee = floor(amt * (10_000 - bps) / 10_000)`, effectively
/// maximizing the fee charged.
#[derive(Debug, Copy, Clone, Default, Eq, PartialEq, Structural)]
pub struct U64BpsFeeCeil(pub u16);

impl U64BpsFeeCeil {
    /// The equivalent general fee: this bps count over 10,000.
    pub open spec fn spec_as_u64_fee_ceil(self) -> U64FeeCeil {
        U64FeeCeil { fee_num: self.0 as u64, fee_denom: BPS_DENOMINATOR as u64 }
    }

    /// Widens this bps fee into the general fee it stands for.
    pub fn as_u64_fee_ceil(&self) -> (fee: U64FeeCeil)
        ensures
            fee == self.spec_as_u64_fee_ceil(),
    {
        U64FeeCeil { fee_num: self.0 as u64, fee_denom: BPS_DENOMINATOR as u64 }
    }

    /// Splits `amt` into the remainder and the fee charged.
    ///
    /// Fails with `InvalidFeeSpec` exactly when the bps count exceeds
    /// 10,000 (fee over 100%) — that is, succeeds exactly when
    /// [`Self::is_valid`] holds. On success the split is exact, and a
    /// zero fee returns the amount untouched.
    pub fn apply(&self, amt: u64) -> (res: Result<AmtsAfterFee, MathError>)
        ensures
            res is Ok <==> self.0 <= BPS_DENOMINATOR,
            res matches Err(e) ==> e == MathError::InvalidFeeSpec,
            res matches Ok(a) ==> {
                &&& a.amt_after_fee == self.spec_as_u64_fee_ceil().spec_amt_after_fee(amt)
                &&& a.is_exact_split_of(amt)
                &&& a.amt_after_fee <= amt
            },
            res matches Ok(a) ==> ((self.0 == 0) ==> (a.amt_after_fee == amt
                && a.fees_charged == 0)),
    {
        self.as_u64_fee_ceil().apply(amt)
    }

    /// True exactly when the fee is at most 100%, i.e. at most
    /// 10,000 bps. A pure predicate with no failure mode: [`Self::apply`]
    /// succeeds if and only if this returns true.
    pub fn is_valid(&self) -> (r: bool)
        ensures
            r == (self.0 <= BPS_DENOMINATOR),
    {
        self.0 <= BPS_DENOMINATOR
    }

    /// Returns a possible amount that was fed into `self.apply()`: the
    /// smallest original amount whose remainder after the fee is
    /// `amt_after_fee`.
    ///
    /// Returns `amt_after_fee` itself when the bps count is zero.
    ///
    /// Fails with `InvalidFeeSpec` exactly when the bps count exceeds
    /// 10,000 (fee over 100%), and with `Overflow` exactly when no
    /// 64-bit amount has that remainder.
    pub fn pseudo_reverse(&self, amt_after_fee: u64) -> (res: Result<u64, MathError>)
        ensures
            self.0 > BPS_DENOMINATOR <==> res == Err::<u64, MathError>(
                MathError::InvalidFeeSpec,
            ),
            res matches Ok(v) ==> {
                &&& self.spec_as_u64_fee_ceil().spec_amt_after_fee(v) == amt_after_fee
                &&& forall|x: u64| #![trigger self.spec_as_u64_fee_ceil().spec_amt_after_fee(x)]
                    x < v ==> self.spec_as_u64_fee_ceil().spec_amt_after_fee(x)
                    != amt_after_fee
            },
            self.0 <= BPS_DENOMINATOR ==> ((res is Ok) <==> exists|x: u64|
                #[trigger] self.spec_as_u64_fee_ceil().spec_amt_after_fee(x)
                == amt_after_fee),
            self.0 == 0 ==> res == Ok::<u64, MathError>(amt_after_fee),
    {
        self.as_u64_fee_ceil().pseudo_reverse(amt_after_fee)
    }
}

} // verus!
