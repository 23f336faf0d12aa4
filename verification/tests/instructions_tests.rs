use sanctum_token_ratio::instructions::{
    AddValidatorToPoolIxArgs, AddValidatorToPoolIxData, CleanupRemovedValidatorEntriesIxData,
    DecreaseAdditionalValidatorStakeIxArgs, DecreaseAdditionalValidatorStakeIxData,
    IncreaseAdditionalValidatorStakeIxArgs, IncreaseAdditionalValidatorStakeIxData,
    InitializeIxArgs, InitializeIxData, InvalidIxDataError, RemoveValidatorFromPoolIxData,
    SetFeeIxArgs, SetFeeIxData, SetFundingAuthorityIxData, SetManagerIxData, SetStakerIxData,
    SplStakePoolProgramIx, UpdateStakePoolBalanceIxData, UpdateValidatorListBalanceIxArgs,
    UpdateValidatorListBalanceIxData,
};
use sanctum_token_ratio::typedefs::{AdditionalValidatorStakeArgs, Fee, FeeType};

fn sample_initialize_args() -> InitializeIxArgs {
    InitializeIxArgs {
        fee: Fee { denominator: 100, numerator: 3 },
        withdrawal_fee: Fee { denominator: 1_000, numerator: 7 },
        deposit_fee: Fee { denominator: 0, numerator: 0 },
        referral_fee: 50,
        max_validators: 2_950,
    }
}

#[test]
fn initialize_ix_data_exact_bytes() {
    let data = InitializeIxData(sample_initialize_args());
    let bytes = data.try_to_vec();
    let mut expected: Vec<u8> = Vec::new();
    expected.push(0); // discriminant
    expected.extend_from_slice(&100u64.to_le_bytes());
    expected.extend_from_slice(&3u64.to_le_bytes());
    expected.extend_from_slice(&1_000u64.to_le_bytes());
    expected.extend_from_slice(&7u64.to_le_bytes());
    expected.extend_from_slice(&0u64.to_le_bytes());
    expected.extend_from_slice(&0u64.to_le_bytes());
    expected.push(50);
    expected.extend_from_slice(&2_950u32.to_le_bytes());
    assert_eq!(bytes, expected);
    assert_eq!(bytes.len(), 54);
}

#[test]
fn initialize_ix_data_round_trip() {
    let data = InitializeIxData(sample_initialize_args());
    let bytes = data.try_to_vec();
    assert_eq!(InitializeIxData::deserialize(&bytes), Ok(data));
    // Trailing bytes are ignored.
    let mut longer = bytes.clone();
    longer.push(0xAB);
    assert_eq!(InitializeIxData::deserialize(&longer), Ok(data));
    // A truncated buffer fails.
    assert_eq!(InitializeIxData::deserialize(&bytes[..53]), Err(InvalidIxDataError));
    // A wrong discriminant fails.
    let mut wrong = bytes.clone();
    wrong[0] = 1;
    assert_eq!(InitializeIxData::deserialize(&wrong), Err(InvalidIxDataError));
}

#[test]
fn add_validator_to_pool_ix_data_round_trip() {
    let data = AddValidatorToPoolIxData(AddValidatorToPoolIxArgs { optional_seed: 0xDEAD_BEEF });
    let bytes = data.try_to_vec();
    assert_eq!(bytes[0], 1);
    assert_eq!(&bytes[1..], &0xDEAD_BEEFu32.to_le_bytes());
    assert_eq!(AddValidatorToPoolIxData::deserialize(&bytes), Ok(data));
    assert_eq!(AddValidatorToPoolIxData::deserialize(&bytes[..4]), Err(InvalidIxDataError));
}

#[test]
fn unit_ix_data_round_trips() {
    assert_eq!(RemoveValidatorFromPoolIxData.try_to_vec(), vec![2]);
    assert_eq!(UpdateStakePoolBalanceIxData.try_to_vec(), vec![7]);
    assert_eq!(CleanupRemovedValidatorEntriesIxData.try_to_vec(), vec![8]);
    assert_eq!(SetManagerIxData.try_to_vec(), vec![11]);
    assert_eq!(SetStakerIxData.try_to_vec(), vec![13]);
    assert_eq!(SetFundingAuthorityIxData.try_to_vec(), vec![15]);

    assert_eq!(RemoveValidatorFromPoolIxData::deserialize(&[2]), Ok(RemoveValidatorFromPoolIxData));
    assert_eq!(UpdateStakePoolBalanceIxData::deserialize(&[7, 99]), Ok(UpdateStakePoolBalanceIxData));
    assert_eq!(CleanupRemovedValidatorEntriesIxData::deserialize(&[8]), Ok(CleanupRemovedValidatorEntriesIxData));
    assert_eq!(SetManagerIxData::deserialize(&[11]), Ok(SetManagerIxData));
    assert_eq!(SetStakerIxData::deserialize(&[13]), Ok(SetStakerIxData));
    assert_eq!(SetFundingAuthorityIxData::deserialize(&[15]), Ok(SetFundingAuthorityIxData));

    assert_eq!(SetManagerIxData::deserialize(&[]), Err(InvalidIxDataError));
    assert_eq!(SetManagerIxData::deserialize(&[12]), Err(InvalidIxDataError));
}

#[test]
fn update_validator_list_balance_round_trip() {
    for no_merge in [false, true] {
        let data = UpdateValidatorListBalanceIxData(UpdateValidatorListBalanceIxArgs {
            start_index: 17,
            no_merge,
        });
        let bytes = data.try_to_vec();
        assert_eq!(bytes[0], 6);
        assert_eq!(&bytes[1..5], &17u32.to_le_bytes());
        assert_eq!(bytes[5], no_merge as u8);
        assert_eq!(UpdateValidatorListBalanceIxData::deserialize(&bytes), Ok(data));
    }
}

#[test]
fn update_validator_list_balance_rejects_bad_bool() {
    let bytes = [6, 17, 0, 0, 0, 2];
    assert_eq!(UpdateValidatorListBalanceIxData::deserialize(&bytes), Err(InvalidIxDataError));
}

#[test]
fn set_fee_ix_data_round_trips_every_fee_type() {
    let fee = Fee { denominator: 25, numerator: 2 };
    let cases = [
        (FeeType::SolReferral(40), vec![12, 0, 40]),
        (FeeType::StakeReferral(7), vec![12, 1, 7]),
        (FeeType::Epoch(fee), Vec::new()),
        (FeeType::StakeWithdrawal(fee), Vec::new()),
        (FeeType::SolDeposit(fee), Vec::new()),
        (FeeType::StakeDeposit(fee), Vec::new()),
        (FeeType::SolWithdrawal(fee), Vec::new()),
    ];
    for (i, (fee_type, expected)) in cases.into_iter().enumerate() {
        let data = SetFeeIxData(SetFeeIxArgs { fee: fee_type });
        let bytes = data.try_to_vec();
        if expected.is_empty() {
            // A fee-carrying variant: tag byte, then the 16-byte fee.
            assert_eq!(bytes.len(), 18);
            assert_eq!(bytes[0], 12);
            assert_eq!(bytes[1], i as u8);
            assert_eq!(&bytes[2..10], &25u64.to_le_bytes());
            assert_eq!(&bytes[10..18], &2u64.to_le_bytes());
        } else {
            assert_eq!(bytes, expected);
        }
        assert_eq!(SetFeeIxData::deserialize(&bytes), Ok(data));
    }
}

#[test]
fn set_fee_ix_data_rejects_bad_fee_type() {
    // Unknown fee-type tag.
    assert_eq!(SetFeeIxData::deserialize(&[12, 9, 1]), Err(InvalidIxDataError));
    // Tag alone without its payload.
    assert_eq!(SetFeeIxData::deserialize(&[12, 2]), Err(InvalidIxDataError));
    assert_eq!(SetFeeIxData::deserialize(&[12]), Err(InvalidIxDataError));
}

#[test]
fn additional_validator_stake_round_trips() {
    let args = AdditionalValidatorStakeArgs {
        lamports: 5_000_000_000,
        transient_stake_seed: 11,
        ephemeral_stake_seed: 12,
    };
    let inc = IncreaseAdditionalValidatorStakeIxData(IncreaseAdditionalValidatorStakeIxArgs {
        args,
    });
    let bytes = inc.try_to_vec();
    assert_eq!(bytes.len(), 25);
    assert_eq!(bytes[0], 19);
    assert_eq!(&bytes[1..9], &5_000_000_000u64.to_le_bytes());
    assert_eq!(&bytes[9..17], &11u64.to_le_bytes());
    assert_eq!(&bytes[17..25], &12u64.to_le_bytes());
    assert_eq!(IncreaseAdditionalValidatorStakeIxData::deserialize(&bytes), Ok(inc));

    let dec = DecreaseAdditionalValidatorStakeIxData(DecreaseAdditionalValidatorStakeIxArgs {
        args,
    });
    let bytes = dec.try_to_vec();
    assert_eq!(bytes[0], 20);
    assert_eq!(DecreaseAdditionalValidatorStakeIxData::deserialize(&bytes), Ok(dec));
    assert_eq!(
        DecreaseAdditionalValidatorStakeIxData::deserialize(&bytes[..24]),
        Err(InvalidIxDataError)
    );
}

#[test]
fn program_ix_round_trips_every_variant() {
    let stake_args = AdditionalValidatorStakeArgs {
        lamports: 1,
        transient_stake_seed: 2,
        ephemeral_stake_seed: 3,
    };
    let cases = vec![
        SplStakePoolProgramIx::Initialize(sample_initialize_args()),
        SplStakePoolProgramIx::AddValidatorToPool(AddValidatorToPoolIxArgs { optional_seed: 4 }),
        SplStakePoolProgramIx::RemoveValidatorFromPool,
        SplStakePoolProgramIx::UpdateValidatorListBalance(UpdateValidatorListBalanceIxArgs {
            start_index: 9,
            no_merge: true,
        }),
        SplStakePoolProgramIx::UpdateStakePoolBalance,
        SplStakePoolProgramIx::CleanupRemovedValidatorEntries,
        SplStakePoolProgramIx::SetManager,
        SplStakePoolProgramIx::SetFee(SetFeeIxArgs {
            fee: FeeType::Epoch(Fee { denominator: 10, numerator: 1 }),
        }),
        SplStakePoolProgramIx::SetStaker,
        SplStakePoolProgramIx::SetFundingAuthority,
        SplStakePoolProgramIx::IncreaseAdditionalValidatorStake(
            IncreaseAdditionalValidatorStakeIxArgs { args: stake_args },
        ),
        SplStakePoolProgramIx::DecreaseAdditionalValidatorStake(
            DecreaseAdditionalValidatorStakeIxArgs { args: stake_args },
        ),
    ];
    for ix in cases {
        let bytes = ix.try_to_vec();
        assert_eq!(SplStakePoolProgramIx::deserialize(&bytes), Ok(ix));
        let mut longer = bytes.clone();
        longer.push(0xFF);
        assert_eq!(SplStakePoolProgramIx::deserialize(&longer), Ok(ix));
    }
}

#[test]
fn program_ix_discriminants_match_ix_data() {
    // The enum and the standalone data types agree on every encoding.
    let ix = SplStakePoolProgramIx::SetManager;
    assert_eq!(ix.try_to_vec(), SetManagerIxData.try_to_vec());
    let args = AddValidatorToPoolIxArgs { optional_seed: 77 };
    assert_eq!(
        SplStakePoolProgramIx::AddValidatorToPool(args).try_to_vec(),
        AddValidatorToPoolIxData(args).try_to_vec()
    );
}

#[test]
fn program_ix_rejects_unknown_discriminant() {
    assert_eq!(SplStakePoolProgramIx::deserialize(&[]), Err(InvalidIxDataError));
    for discm in [3u8, 4, 5, 9, 10, 14, 16, 17, 18, 21, 255] {
        assert_eq!(SplStakePoolProgramIx::deserialize(&[discm]), Err(InvalidIxDataError));
    }
}

#[test]
fn fee_serialize_is_denominator_then_numerator() {
    let fee = Fee { denominator: 258, numerator: 5 };
    let mut out: Vec<u8> = Vec::new();
    fee.serialize(&mut out);
    assert_eq!(&out[..8], &[2, 1, 0, 0, 0, 0, 0, 0]);
    assert_eq!(&out[8..], &5u64.to_le_bytes());
}
