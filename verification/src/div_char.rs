//! Characterizations of floor division over nonnegative integers.
//!
//! Reverse computations must describe every input that a rounded division
//! maps onto a given output; these lemmas translate between a quotient
//! equation and the interval of dividends it admits.

use vstd::prelude::*;

verus! {

/// The quotient of `a / d` is `y` exactly when `a` lies in the window
/// `[y*d, y*d + d - 1]`.
pub(crate) proof fn lemma_div_char(a: int, y: int, d: int)
    by (nonlinear_arith)
    requires
        d >= 1,
        a >= 0,
        y >= 0,
    ensures
        (a / d == y) <==> (y * d <= a <= y * d + d - 1),
{
}

/// `x` is at most `floor(b / n)` exactly when `n * x` is at most `b`.
pub(crate) proof fn lemma_le_div_iff(x: int, b: int, n: int)
    by (nonlinear_arith)
    requires
        n >= 1,
        x >= 0,
        b >= 0,
    ensures
        (x <= b / n) <==> (n * x <= b),
{
}

/// `x` is at least `ceil(a / n)`, written `(a + n - 1) / n`, exactly when
/// `n * x` is at least `a`.
pub(crate) proof fn lemma_ge_ceil_iff(x: int, a: int, n: int)
    by (nonlinear_arith)
    requires
        n >= 1,
        x >= 0,
        a >= 0,
    ensures
        (x >= (a + n - 1) / n) <==> (n * x >= a),
{
}

/// Widened products of 64-bit operands stay below `2^128`, with room to
/// add one more 64-bit term: the ceiling adjustment never overflows.
pub(crate) proof fn lemma_u64_mul_bound(a: u64, b: u64)
    by (nonlinear_arith)
    ensures
        0 <= a * b <= (u64::MAX as int) * (u64::MAX as int),
{
}

/// Scaling down by a ratio of at most one and flooring never exceeds the
/// scaled amount.
pub(crate) proof fn lemma_scaled_floor_le(amt: int, k: int, d: int)
    by (nonlinear_arith)
    requires
        0 <= amt,
        0 <= k <= d,
        1 <= d,
    ensures
        0 <= (amt * k) / d <= amt,
{
}

/// A product with a factor of at least one is no smaller than the other
/// factor.
pub(crate) proof fn lemma_mul_ge_factor(y: int, d: int)
    by (nonlinear_arith)
    requires
        y >= 1,
        d >= 0,
    ensures
        y * d >= d,
{
}

} // verus!
