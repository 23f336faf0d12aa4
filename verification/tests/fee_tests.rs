use sanctum_token_ratio::amts_after_fee::AmtsAfterFee;
use sanctum_token_ratio::math_error::{MathError, MATH_ERROR_PROGRAM_ERROR_CODE};
use sanctum_token_ratio::rounding::ReversibleRatio;
use sanctum_token_ratio::u64_bps_fee_ceil::{U64BpsFeeCeil, BPS_DENOMINATOR};
use sanctum_token_ratio::u64_fee_ceil::U64FeeCeil;

#[test]
fn zero_fee_on_million_charges_nothing() {
    let fee = U64FeeCeil { fee_num: 0, fee_denom: 10_000 };
    let amts = fee.apply(1_000_000).unwrap();
    assert_eq!(amts, AmtsAfterFee { amt_after_fee: 1_000_000, fees_charged: 0 });
}

#[test]
fn full_bps_fee_charges_everything() {
    let fee = U64BpsFeeCeil(10_000);
    let amts = fee.apply(500).unwrap();
    assert_eq!(amts, AmtsAfterFee { amt_after_fee: 0, fees_charged: 500 });
}

#[test]
fn over_full_bps_fee_is_invalid() {
    let fee = U64BpsFeeCeil(10_001);
    assert_eq!(fee.apply(500), Err(MathError::InvalidFeeSpec));
    assert_eq!(fee.apply(0), Err(MathError::InvalidFeeSpec));
    assert_eq!(fee.pseudo_reverse(500), Err(MathError::InvalidFeeSpec));
    assert!(!fee.is_valid());
}

#[test]
fn bps_validity_boundary() {
    assert!(U64BpsFeeCeil(0).is_valid());
    assert!(U64BpsFeeCeil(1).is_valid());
    assert!(U64BpsFeeCeil(9_999).is_valid());
    assert!(U64BpsFeeCeil(BPS_DENOMINATOR).is_valid());
    assert!(!U64BpsFeeCeil(BPS_DENOMINATOR + 1).is_valid());
    assert!(!U64BpsFeeCeil(u16::MAX).is_valid());
}

#[test]
fn bps_apply_succeeds_iff_valid() {
    for bps in [0u16, 1, 5_000, 9_999, 10_000, 10_001, u16::MAX] {
        let fee = U64BpsFeeCeil(bps);
        assert_eq!(fee.apply(12_345).is_ok(), fee.is_valid());
    }
}

#[test]
fn fee_split_is_exact() {
    let cases = [
        (U64FeeCeil { fee_num: 1, fee_denom: 3 }, 100u64),
        (U64FeeCeil { fee_num: 25, fee_denom: 10_000 }, u64::MAX),
        (U64FeeCeil { fee_num: 7, fee_denom: 7 }, 12_345),
        (U64FeeCeil { fee_num: 0, fee_denom: 0 }, 987_654_321),
        (U64FeeCeil { fee_num: 9_999, fee_denom: 10_000 }, 1),
    ];
    for (fee, amt) in cases {
        let amts = fee.apply(amt).unwrap();
        assert!(amts.amt_after_fee <= amt);
        assert_eq!(amts.amt_after_fee + amts.fees_charged, amt);
    }
}

#[test]
fn fee_rounds_in_protocol_favor() {
    // 1 bps of 100: the remainder floor(100 * 9999 / 10000) = 99, so a
    // single token of fee is collected even though 1 bps of 100 is 0.01.
    let fee = U64FeeCeil { fee_num: 1, fee_denom: 10_000 };
    let amts = fee.apply(100).unwrap();
    assert_eq!(amts.amt_after_fee, 99);
    assert_eq!(amts.fees_charged, 1);
}

#[test]
fn third_fee_concrete_values() {
    let fee = U64FeeCeil { fee_num: 1, fee_denom: 3 };
    let amts = fee.apply(100).unwrap();
    // floor(100 * 2 / 3) = 66 stays, 34 is charged.
    assert_eq!(amts.amt_after_fee, 66);
    assert_eq!(amts.fees_charged, 34);
}

#[test]
fn zero_denom_fee_means_no_fee() {
    let fee = U64FeeCeil { fee_num: 0, fee_denom: 0 };
    let amts = fee.apply(777).unwrap();
    assert_eq!(amts, AmtsAfterFee { amt_after_fee: 777, fees_charged: 0 });
    assert_eq!(fee.pseudo_reverse(777), Ok(777));
}

#[test]
fn invalid_fee_spec_detected() {
    let fee = U64FeeCeil { fee_num: 11, fee_denom: 10 };
    assert_eq!(fee.apply(100), Err(MathError::InvalidFeeSpec));
    assert_eq!(fee.pseudo_reverse(100), Err(MathError::InvalidFeeSpec));
    // A nonzero numerator over a zero denominator is a fee over 100%.
    let degenerate = U64FeeCeil { fee_num: 1, fee_denom: 0 };
    assert_eq!(degenerate.apply(100), Err(MathError::InvalidFeeSpec));
}

#[test]
fn pseudo_reverse_recovers_a_consistent_amount() {
    let cases = [
        (U64FeeCeil { fee_num: 1, fee_denom: 3 }, 1_000u64),
        (U64FeeCeil { fee_num: 25, fee_denom: 10_000 }, 123_456_789),
        (U64FeeCeil { fee_num: 0, fee_denom: 10_000 }, 42),
        (U64FeeCeil { fee_num: 9_999, fee_denom: 10_000 }, 5),
    ];
    for (fee, amt) in cases {
        let amts = fee.apply(amt).unwrap();
        let recovered = fee.pseudo_reverse(amts.amt_after_fee).unwrap();
        // The recovered amount must itself be consistent with the output.
        let again = fee.apply(recovered).unwrap();
        assert_eq!(again.amt_after_fee, amts.amt_after_fee);
        // And it is the smallest consistent amount, so no larger than amt.
        assert!(recovered <= amt);
    }
}

#[test]
fn pseudo_reverse_of_zero_fee_is_identity() {
    let fee = U64FeeCeil { fee_num: 0, fee_denom: 10_000 };
    assert_eq!(fee.pseudo_reverse(123_456), Ok(123_456));
    let bps = U64BpsFeeCeil(0);
    assert_eq!(bps.pseudo_reverse(9_876_543_210), Ok(9_876_543_210));
}

#[test]
fn pseudo_reverse_of_full_fee() {
    // A 100% fee nets zero from every amount: zero is a possible
    // original, any other output has none.
    let fee = U64FeeCeil { fee_num: 10, fee_denom: 10 };
    assert_eq!(fee.pseudo_reverse(0), Ok(0));
    assert_eq!(fee.pseudo_reverse(1), Err(MathError::Overflow));
}

#[test]
fn pseudo_reverse_unreachable_output_overflows() {
    // Nearly-full fee: only tiny remainders are reachable from u64
    // amounts, so a huge remainder has no consistent original.
    let fee = U64FeeCeil { fee_num: 9_999, fee_denom: 10_000 };
    assert_eq!(fee.pseudo_reverse(u64::MAX), Err(MathError::Overflow));
}

#[test]
fn fee_reverse_range_brackets_the_originals() {
    let fee = U64FeeCeil { fee_num: 1, fee_denom: 3 };
    let amt = 1_000u64;
    let after = fee.apply(amt).unwrap().amt_after_fee;
    let range = fee.reverse(after).unwrap();
    assert!(range.min <= range.max);
    assert!(range.contains(amt));
    // Every value in the range maps back onto the same output.
    for x in range.min..=range.max {
        assert_eq!(fee.apply(x).unwrap().amt_after_fee, after);
    }
    // The neighbors just outside do not.
    if range.min > 0 {
        assert_ne!(fee.apply(range.min - 1).unwrap().amt_after_fee, after);
    }
    assert_ne!(fee.apply(range.max + 1).unwrap().amt_after_fee, after);
}

#[test]
fn bps_as_u64_fee_ceil_widens() {
    let bps = U64BpsFeeCeil(25);
    let fee = bps.as_u64_fee_ceil();
    assert_eq!(fee, U64FeeCeil { fee_num: 25, fee_denom: 10_000 });
    assert_eq!(bps.apply(40_000), fee.apply(40_000));
    assert_eq!(bps.pseudo_reverse(39_900), fee.pseudo_reverse(39_900));
}

#[test]
fn math_error_maps_to_reserved_code() {
    assert_eq!(MATH_ERROR_PROGRAM_ERROR_CODE, 696969);
    assert_eq!(MathError::Overflow.program_error_code(), 696969);
    assert_eq!(MathError::InvalidFeeSpec.program_error_code(), 696969);
}
