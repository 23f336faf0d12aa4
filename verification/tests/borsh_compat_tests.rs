//! The hand-specified wire format matches what the borsh serializer
//! produces for the same field values: integers little-endian, structs
//! as their fields in order, enums as a one-byte tag then the payload.

use sanctum_token_ratio::instructions::{
    InitializeIxArgs, InitializeIxData, SetFeeIxArgs, SetFeeIxData,
    UpdateValidatorListBalanceIxArgs, UpdateValidatorListBalanceIxData,
};
use sanctum_token_ratio::typedefs::{AdditionalValidatorStakeArgs, Fee, FeeType};

#[test]
fn fee_encoding_matches_borsh() {
    let fee = Fee { denominator: 100, numerator: 3 };
    let mut out: Vec<u8> = Vec::new();
    fee.serialize(&mut out);
    assert_eq!(out, borsh::to_vec(&(100u64, 3u64)).unwrap());
}

#[test]
fn initialize_ix_data_matches_borsh() {
    let data = InitializeIxData(InitializeIxArgs {
        fee: Fee { denominator: 100, numerator: 3 },
        withdrawal_fee: Fee { denominator: 1_000, numerator: 7 },
        deposit_fee: Fee { denominator: 2, numerator: 1 },
        referral_fee: 50,
        max_validators: 2_950,
    });
    let expected = borsh::to_vec(&(
        0u8,
        (100u64, 3u64),
        (1_000u64, 7u64),
        (2u64, 1u64),
        50u8,
        2_950u32,
    ))
    .unwrap();
    assert_eq!(data.try_to_vec(), expected);
}

#[test]
fn update_validator_list_balance_bool_matches_borsh() {
    for no_merge in [false, true] {
        let data = UpdateValidatorListBalanceIxData(UpdateValidatorListBalanceIxArgs {
            start_index: 99,
            no_merge,
        });
        let expected = borsh::to_vec(&(6u8, 99u32, no_merge)).unwrap();
        assert_eq!(data.try_to_vec(), expected);
    }
}

#[test]
fn fee_type_tag_and_payload_match_borsh() {
    // An enum is its variant's position as one byte, then the payload.
    let data = SetFeeIxData(SetFeeIxArgs {
        fee: FeeType::StakeWithdrawal(Fee { denominator: 25, numerator: 2 }),
    });
    let expected = borsh::to_vec(&(12u8, 3u8, (25u64, 2u64))).unwrap();
    assert_eq!(data.try_to_vec(), expected);

    let referral = SetFeeIxData(SetFeeIxArgs { fee: FeeType::SolReferral(40) });
    assert_eq!(referral.try_to_vec(), borsh::to_vec(&(12u8, 0u8, 40u8)).unwrap());
}

#[test]
fn additional_validator_stake_args_match_borsh() {
    let args = AdditionalValidatorStakeArgs {
        lamports: 5_000_000_000,
        transient_stake_seed: 11,
        ephemeral_stake_seed: 12,
    };
    let mut out: Vec<u8> = Vec::new();
    args.serialize(&mut out);
    assert_eq!(out, borsh::to_vec(&(5_000_000_000u64, 11u64, 12u64)).unwrap());
}
