use sanctum_token_ratio::math_error::MathError;
use sanctum_token_ratio::rounding::{CeilDiv, FloorDiv, ReversibleRatio};
use sanctum_token_ratio::u64_ratio::U64Ratio;
use sanctum_token_ratio::u64_value_range::U64ValueRange;

#[test]
fn ratios_equal_across_representations() {
    assert!(U64Ratio { num: 1, denom: 2 } == U64Ratio { num: 2, denom: 4 });
    assert!(U64Ratio { num: 0, denom: 5 } == U64Ratio { num: 0, denom: 9 });
    assert!(U64Ratio { num: 3, denom: 0 } == U64Ratio { num: 7, denom: 0 });
    assert!(U64Ratio { num: 1, denom: 2 } != U64Ratio { num: 2, denom: 3 });
}

#[test]
fn ratio_ordering_by_cross_multiplication() {
    // 3/7 < 1/2 because 3 * 2 < 1 * 7.
    assert!(U64Ratio { num: 3, denom: 7 } < U64Ratio { num: 1, denom: 2 });
    assert!(U64Ratio { num: 1, denom: 2 } > U64Ratio { num: 3, denom: 7 });
}

#[test]
fn ratio_ordering_shared_denominator_follows_numerators() {
    let small = U64Ratio { num: 10, denom: 1_000 };
    let large = U64Ratio { num: 11, denom: 1_000 };
    assert!(small < large);
    assert!(large > small);
    assert!(small == U64Ratio { num: 10, denom: 1_000 });
}

#[test]
fn ratio_ordering_shared_numerator_reverses_denominators() {
    let small = U64Ratio { num: 10, denom: 1_001 };
    let large = U64Ratio { num: 10, denom: 999 };
    assert!(small < large);
    assert!(large > small);
}

#[test]
fn ratio_ordering_at_extremes_has_no_overflow() {
    let max_ratio = U64Ratio { num: u64::MAX, denom: 1 };
    let min_ratio = U64Ratio { num: 1, denom: u64::MAX };
    assert!(min_ratio < max_ratio);
    assert!(max_ratio == U64Ratio { num: u64::MAX, denom: 1 });
    assert!(min_ratio == U64Ratio { num: 1, denom: u64::MAX });
}

#[test]
fn floor_apply_rounds_down() {
    let r = FloorDiv(U64Ratio { num: 2, denom: 3 });
    assert_eq!(r.apply(10), Ok(6));
    assert_eq!(r.apply(0), Ok(0));
    assert_eq!(r.apply(3), Ok(2));
}

#[test]
fn ceil_apply_rounds_up() {
    let r = CeilDiv(U64Ratio { num: 2, denom: 3 });
    assert_eq!(r.apply(10), Ok(7));
    assert_eq!(r.apply(0), Ok(0));
    assert_eq!(r.apply(3), Ok(2));
}

#[test]
fn degenerate_ratio_applies_to_zero() {
    assert_eq!(FloorDiv(U64Ratio { num: 0, denom: 9 }).apply(1_000), Ok(0));
    assert_eq!(FloorDiv(U64Ratio { num: 9, denom: 0 }).apply(1_000), Ok(0));
    assert_eq!(CeilDiv(U64Ratio { num: 0, denom: 9 }).apply(1_000), Ok(0));
    assert_eq!(CeilDiv(U64Ratio { num: 9, denom: 0 }).apply(1_000), Ok(0));
}

#[test]
fn oversized_apply_overflows() {
    let r = FloorDiv(U64Ratio { num: u64::MAX, denom: 1 });
    assert_eq!(r.apply(2), Err(MathError::Overflow));
    assert_eq!(r.apply(1), Ok(u64::MAX));
    let c = CeilDiv(U64Ratio { num: u64::MAX, denom: 2 });
    assert_eq!(c.apply(3), Err(MathError::Overflow));
}

#[test]
fn floor_reverse_returns_full_interval() {
    let r = FloorDiv(U64Ratio { num: 2, denom: 3 });
    // floor(x * 2 / 3) == 6 exactly for x in 9..=10.
    assert_eq!(r.reverse(6), Ok(U64ValueRange { min: 9, max: 10 }));
    for x in 9..=10u64 {
        assert_eq!(r.apply(x), Ok(6));
    }
    assert_eq!(r.apply(8), Ok(5));
    assert_eq!(r.apply(11), Ok(7));
}

#[test]
fn ceil_reverse_returns_full_interval() {
    let r = CeilDiv(U64Ratio { num: 2, denom: 3 });
    // ceil(x * 2 / 3) == 6 exactly for x in 8..=9.
    assert_eq!(r.reverse(6), Ok(U64ValueRange { min: 8, max: 9 }));
    for x in 8..=9u64 {
        assert_eq!(r.apply(x), Ok(6));
    }
    assert_eq!(r.reverse(0), Ok(U64ValueRange { min: 0, max: 0 }));
}

#[test]
fn reverse_contains_the_applied_amount() {
    let cases = [
        (U64Ratio { num: 2, denom: 3 }, 1_000u64),
        (U64Ratio { num: 1, denom: 10_000 }, u64::MAX / 2),
        (U64Ratio { num: 10_000, denom: 1 }, 123),
        (U64Ratio { num: 1, denom: 1 }, 42),
    ];
    for (ratio, x) in cases {
        let floor = FloorDiv(ratio);
        let y = floor.apply(x).unwrap();
        assert!(floor.reverse(y).unwrap().contains(x));
        let ceil = CeilDiv(ratio);
        let y = ceil.apply(x).unwrap();
        assert!(ceil.reverse(y).unwrap().contains(x));
    }
}

#[test]
fn degenerate_reverse_is_full_domain_for_zero() {
    let r = FloorDiv(U64Ratio { num: 0, denom: 3 });
    assert_eq!(r.reverse(0), Ok(U64ValueRange { min: 0, max: u64::MAX }));
    assert_eq!(r.reverse(1), Err(MathError::Overflow));
    let c = CeilDiv(U64Ratio { num: 7, denom: 0 });
    assert_eq!(c.reverse(0), Ok(U64ValueRange { min: 0, max: u64::MAX }));
    assert_eq!(c.reverse(5), Err(MathError::Overflow));
}

#[test]
fn reverse_of_unreachable_output_overflows() {
    // floor(x * 3 / 1) hits only multiples of three.
    let r = FloorDiv(U64Ratio { num: 3, denom: 1 });
    assert_eq!(r.reverse(6), Ok(U64ValueRange { min: 2, max: 2 }));
    assert_eq!(r.reverse(7), Err(MathError::Overflow));
    // ceil(x * 3 / 1) likewise.
    let c = CeilDiv(U64Ratio { num: 3, denom: 1 });
    assert_eq!(c.reverse(2), Err(MathError::Overflow));
}

#[test]
fn reverse_clamps_to_the_u64_domain() {
    // Everything at or above the quotient maps onto u64::MAX under a
    // halving ratio, so the range is clamped at the domain's top.
    let r = FloorDiv(U64Ratio { num: 1, denom: 2 });
    let top = r.reverse(u64::MAX / 2).unwrap();
    assert_eq!(top.min, u64::MAX - 1);
    assert_eq!(top.max, u64::MAX);
}

#[test]
fn value_range_contains_is_inclusive() {
    let range = U64ValueRange { min: 10, max: 12 };
    assert!(!range.contains(9));
    assert!(range.contains(10));
    assert!(range.contains(11));
    assert!(range.contains(12));
    assert!(!range.contains(13));
}
