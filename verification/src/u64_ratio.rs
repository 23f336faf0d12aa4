//! An exact rational multiplier for 64-bit token amounts, compared by
//! widened cross-multiplication so that no precision is ever lost.

use vstd::prelude::*;

verus! {

/// A ratio that is applied to a u64 token amount.
///
/// `denom == 0` is a legal value, not an error: it denotes a degenerate
/// ratio that forward-applies to zero for any input, exactly as
/// `num == 0` does. No normalization is performed, so two ratios with
/// different representations can be numerically equal; they compare
/// equal.
///
/// Must be used with [`crate::rounding::CeilDiv`] or
/// [`crate::rounding::FloorDiv`] to pick the rounding direction of an
/// application.
#[derive(Debug, Copy, Clone, Default, Hash)]
pub struct U64Ratio {
    pub num: u64,
    pub denom: u64,
}

impl U64Ratio {
    /// Numeric equality: `num / denom == rhs.num / rhs.denom` as exact
    /// rationals, stated by cross-multiplication so that a zero
    /// denominator needs no special case.
    pub open spec fn spec_eq(self, rhs: U64Ratio) -> bool {
        self.num * rhs.denom == rhs.num * self.denom
    }

    /// Numeric strict order by cross-multiplication.
    pub open spec fn spec_lt(self, rhs: U64Ratio) -> bool {
        self.num * rhs.denom < rhs.num * self.denom
    }

    /// Numeric comparison of two ratios.
    pub open spec fn spec_cmp(self, rhs: U64Ratio) -> core::cmp::Ordering {
        if self.spec_lt(rhs) {
            core::cmp::Ordering::Less
        } else if self.spec_eq(rhs) {
            core::cmp::Ordering::Equal
        } else {
            core::cmp::Ordering::Greater
        }
    }
}

/// The widened products of two u64 values never overflow a u128.
proof fn lemma_u64_mul_fits_u128(a: u64, b: u64)
    by (nonlinear_arith)
    ensures
        a * b <= u128::MAX,
{
}

impl PartialEq for U64Ratio {
    /// Exact comparison: widen both ratios to 128 bits and cross-multiply,
    /// so no precision is lost to premature division. The widened products
    /// of 64-bit operands cannot overflow; Verus proves it rather than
    /// checking at run time.
    fn eq(&self, rhs: &U64Ratio) -> (r: bool) {
        let ln: u128 = self.num as u128;
        let ld: u128 = self.denom as u128;
        let rn: u128 = rhs.num as u128;
        let rd: u128 = rhs.denom as u128;
        proof {
            lemma_u64_mul_fits_u128(self.num, rhs.denom);
            lemma_u64_mul_fits_u128(rhs.num, self.denom);
        }
        ln * rd == rn * ld
    }
}

impl Eq for U64Ratio {
}

impl vstd::std_specs::cmp::PartialEqSpecImpl for U64Ratio {
    open spec fn obeys_eq_spec() -> bool {
        true
    }

    open spec fn eq_spec(&self, rhs: &U64Ratio) -> bool {
        self.spec_eq(*rhs)
    }
}

impl PartialOrd for U64Ratio {
    /// Exact comparison by widened cross-multiplication; total, so this
    /// always returns `Some`.
    fn partial_cmp(&self, rhs: &U64Ratio) -> (r: Option<core::cmp::Ordering>) {
        let ln: u128 = self.num as u128;
        let ld: u128 = self.denom as u128;
        let rn: u128 = rhs.num as u128;
        let rd: u128 = rhs.denom as u128;
        proof {
            lemma_u64_mul_fits_u128(self.num, rhs.denom);
            lemma_u64_mul_fits_u128(rhs.num, self.denom);
        }
        let lhs_prod: u128 = ln * rd;
        let rhs_prod: u128 = rn * ld;
        if lhs_prod < rhs_prod {
            Some(core::cmp::Ordering::Less)
        } else if lhs_prod == rhs_prod {
            Some(core::cmp::Ordering::Equal)
        } else {
            Some(core::cmp::Ordering::Greater)
        }
    }
}

impl vstd::std_specs::cmp::PartialOrdSpecImpl for U64Ratio {
    open spec fn obeys_partial_cmp_spec() -> bool {
        true
    }

    open spec fn partial_cmp_spec(&self, rhs: &U64Ratio) -> Option<core::cmp::Ordering> {
        Some(self.spec_cmp(*rhs))
    }
}

/// Ratio comparison is reflexive: every ratio is numerically equal to
/// itself.
pub proof fn lemma_cmp_reflexive(a: U64Ratio)
    ensures
        a.spec_eq(a),
        a.spec_cmp(a) == core::cmp::Ordering::Equal,
{
}

/// Ratio comparison is antisymmetric: if neither ratio is numerically
/// below the other, they are numerically equal.
pub proof fn lemma_cmp_antisymmetric(a: U64Ratio, b: U64Ratio)
    requires
        !a.spec_lt(b),
        !b.spec_lt(a),
    ensures
        a.spec_eq(b),
{
}

/// Ratio equality is symmetric.
pub proof fn lemma_eq_symmetric(a: U64Ratio, b: U64Ratio)
    ensures
        a.spec_eq(b) <==> b.spec_eq(a),
{
}

/// Ratio equality is transitive over ratios with nonzero denominators.
///
/// (A zero denominator breaks transitivity: such a ratio compares equal
/// to every ratio whose cross-product with it is zero.)
pub proof fn lemma_eq_transitive(a: U64Ratio, b: U64Ratio, c: U64Ratio)
    by (nonlinear_arith)
    requires
        a.denom > 0,
        b.denom > 0,
        c.denom > 0,
        a.spec_eq(b),
        b.spec_eq(c),
    ensures
        a.spec_eq(c),
{
}

/// Ratio order is transitive over ratios with nonzero denominators.
///
/// (A zero denominator breaks transitivity: such a ratio compares equal
/// to every other ratio with a zero cross-product.)
pub proof fn lemma_cmp_transitive(a: U64Ratio, b: U64Ratio, c: U64Ratio)
    by (nonlinear_arith)
    requires
        a.denom > 0,
        b.denom > 0,
        c.denom > 0,
        a.spec_lt(b),
        b.spec_lt(c),
    ensures
        a.spec_lt(c),
{
}

/// Over a common nonzero denominator, ratio order is numerator order.
pub proof fn lemma_cmp_same_denom(a: U64Ratio, b: U64Ratio)
    by (nonlinear_arith)
    requires
        a.denom == b.denom,
        a.denom > 0,
    ensures
        a.spec_lt(b) <==> a.num < b.num,
        a.spec_eq(b) <==> a.num == b.num,
{
}

/// Over a common nonzero numerator, ratio order is the reverse of
/// denominator order.
pub proof fn lemma_cmp_same_num(a: U64Ratio, b: U64Ratio)
    by (nonlinear_arith)
    requires
        a.num == b.num,
        a.num > 0,
    ensures
        a.spec_lt(b) <==> a.denom > b.denom,
        a.spec_eq(b) <==> a.denom == b.denom,
{
}

} // verus!
