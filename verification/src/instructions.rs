//! Stake-pool instruction data: typed argument records, their exact byte
//! encodings (a one-byte discriminant, then the fields in order), and
//! deserialization that accepts exactly the buffers beginning with a
//! well-formed encoding — trailing bytes are ignored.

use vstd::bytes::{
    lemma_auto_spec_u32_to_from_le_bytes, spec_u32_from_le_bytes, spec_u32_to_le_bytes,
};
use vstd::prelude::*;

use crate::le_bytes::{read_u32_le, write_u32_le, write_u8};
use crate::typedefs::{
    lemma_additional_validator_stake_args_round_trip, lemma_fee_round_trip,
    lemma_fee_type_round_trip, read_additional_validator_stake_args, read_fee, read_fee_type,
    spec_enc_additional_validator_stake_args, spec_enc_fee, spec_enc_fee_type,
    spec_parse_additional_validator_stake_args, spec_parse_fee, spec_parse_fee_type,
    AdditionalValidatorStakeArgs, Fee, FeeType,
};

verus! {

/// The buffer does not begin with a well-formed encoding of the
/// expected instruction data: too short, a wrong or unknown
/// discriminant, or an ill-formed field.
#[derive(Clone, Copy, Debug, PartialEq, Eq, Structural)]
pub struct InvalidIxDataError;

pub const INITIALIZE_IX_DISCM: u8 = 0;

pub const ADD_VALIDATOR_TO_POOL_IX_DISCM: u8 = 1;

pub const REMOVE_VALIDATOR_FROM_POOL_IX_DISCM: u8 = 2;

pub const UPDATE_VALIDATOR_LIST_BALANCE_IX_DISCM: u8 = 6;

pub const UPDATE_STAKE_POOL_BALANCE_IX_DISCM: u8 = 7;

pub const CLEANUP_REMOVED_VALIDATOR_ENTRIES_IX_DISCM: u8 = 8;

pub const SET_MANAGER_IX_DISCM: u8 = 11;

pub const SET_FEE_IX_DISCM: u8 = 12;

pub const SET_STAKER_IX_DISCM: u8 = 13;

pub const SET_FUNDING_AUTHORITY_IX_DISCM: u8 = 15;

pub const INCREASE_ADDITIONAL_VALIDATOR_STAKE_IX_DISCM: u8 = 19;

pub const DECREASE_ADDITIONAL_VALIDATOR_STAKE_IX_DISCM: u8 = 20;

/// Arguments to initialize a stake pool.
#[derive(Clone, Copy, Debug, PartialEq, Eq, Structural)]
pub struct InitializeIxArgs {
    pub fee: Fee,
    pub withdrawal_fee: Fee,
    pub deposit_fee: Fee,
    pub referral_fee: u8,
    pub max_validators: u32,
}

/// The encoding of initialize arguments: 53 bytes.
pub open spec fn spec_enc_initialize_ix_args(a: InitializeIxArgs) -> Seq<u8> {
    spec_enc_fee(a.fee) + spec_enc_fee(a.withdrawal_fee) + spec_enc_fee(a.deposit_fee) + seq![
        a.referral_fee,
    ] + spec_u32_to_le_bytes(a.max_validators)
}

/// The initialize arguments encoded in the first 53 bytes of `s`.
pub open spec fn spec_parse_initialize_ix_args(s: Seq<u8>) -> InitializeIxArgs
    recommends
        s.len() >= 53,
{
    InitializeIxArgs {
        fee: spec_parse_fee(s.subrange(0, 16)),
        withdrawal_fee: spec_parse_fee(s.subrange(16, 32)),
        deposit_fee: spec_parse_fee(s.subrange(32, 48)),
        referral_fee: s[48],
        max_validators: spec_u32_from_le_bytes(s.subrange(49, 53)),
    }
}

impl InitializeIxArgs {
    /// Appends this value's 53-byte encoding to `out`.
    pub fn serialize(&self, out: &mut Vec<u8>)
        ensures
            final(out)@ == old(out)@ + spec_enc_initialize_ix_args(*self),
    {
        self.fee.serialize(out);
        self.withdrawal_fee.serialize(out);
        self.deposit_fee.serialize(out);
        write_u8(out, self.referral_fee);
        write_u32_le(out, self.max_validators);
        proof {
            assert(out@ =~= old(out)@ + spec_enc_initialize_ix_args(*self));
        }
    }
}

/// Reads the initialize arguments encoded at `offset`.
fn read_initialize_ix_args(buf: &[u8], offset: usize) -> (a: InitializeIxArgs)
    requires
        offset + 53 <= buf@.len(),
    ensures
        a == spec_parse_initialize_ix_args(buf@.subrange(offset as int, offset as int + 53)),
{
    let _n: usize = buf.len();
    let fee = read_fee(buf, offset);
    let withdrawal_fee = read_fee(buf, offset + 16);
    let deposit_fee = read_fee(buf, offset + 32);
    let referral_fee = buf[offset + 48];
    let max_validators = read_u32_le(buf, offset + 49);
    proof {
        let s = buf@.subrange(offset as int, offset as int + 53);
        assert(s.subrange(0, 16) =~= buf@.subrange(offset as int, offset as int + 16));
        assert(s.subrange(16, 32) =~= buf@.subrange(offset as int + 16, offset as int + 32));
        assert(s.subrange(32, 48) =~= buf@.subrange(offset as int + 32, offset as int + 48));
        assert(s.subrange(49, 53) =~= buf@.subrange(offset as int + 49, offset as int + 53));
    }
    InitializeIxArgs { fee, withdrawal_fee, deposit_fee, referral_fee, max_validators }
}

/// Initialize arguments encode to 53 bytes, and parsing that encoding
/// recovers them.
pub proof fn lemma_initialize_ix_args_round_trip(a: InitializeIxArgs)
    ensures
        spec_enc_initialize_ix_args(a).len() == 53,
        spec_parse_initialize_ix_args(spec_enc_initialize_ix_args(a)) == a,
{
    lemma_auto_spec_u32_to_from_le_bytes();
    lemma_fee_round_trip(a.fee);
    lemma_fee_round_trip(a.withdrawal_fee);
    lemma_fee_round_trip(a.deposit_fee);
    let e = spec_enc_initialize_ix_args(a);
    assert(e.subrange(0, 16) =~= spec_enc_fee(a.fee));
    assert(e.subrange(16, 32) =~= spec_enc_fee(a.withdrawal_fee));
    assert(e.subrange(32, 48) =~= spec_enc_fee(a.deposit_fee));
    assert(e[48] == a.referral_fee);
    assert(e.subrange(49, 53) =~= spec_u32_to_le_bytes(a.max_validators));
}

/// Initialize instruction data: the discriminant and the arguments.
#[derive(Clone, Copy, Debug, PartialEq, Eq, Structural)]
pub struct InitializeIxData(pub InitializeIxArgs);

/// The encoding of initialize instruction data: 54 bytes.
pub open spec fn spec_enc_initialize_ix_data(d: InitializeIxData) -> Seq<u8> {
    seq![INITIALIZE_IX_DISCM] + spec_enc_initialize_ix_args(d.0)
}

/// The initialize instruction data at the start of `s`, if any.
pub open spec fn spec_parse_initialize_ix_data(s: Seq<u8>) -> Option<InitializeIxData> {
    if s.len() >= 54 && s[0] == INITIALIZE_IX_DISCM {
        Some(InitializeIxData(spec_parse_initialize_ix_args(s.subrange(1, 54))))
    } else {
        None
    }
}

impl InitializeIxData {
    /// Reads initialize instruction data from the start of `buf`,
    /// ignoring trailing bytes. Fails exactly when `buf` is too short or
    /// does not carry the initialize discriminant.
    pub fn deserialize(buf: &[u8]) -> (res: Result<Self, InvalidIxDataError>)
        ensures
            match res {
                Ok(v) => spec_parse_initialize_ix_data(buf@) == Some(v),
                Err(_) => spec_parse_initialize_ix_data(buf@) is None,
            },
    {
        if buf.len() < 54 {
            return Err(InvalidIxDataError);
        }
        if buf[0] != INITIALIZE_IX_DISCM {
            return Err(InvalidIxDataError);
        }
        let args = read_initialize_ix_args(buf, 1);
        Ok(InitializeIxData(args))
    }

    /// Appends this value's 54-byte encoding to `out`.
    pub fn serialize(&self, out: &mut Vec<u8>)
        ensures
            final(out)@ == old(out)@ + spec_enc_initialize_ix_data(*self),
    {
        write_u8(out, INITIALIZE_IX_DISCM);
        self.0.serialize(out);
        proof {
            assert(out@ =~= old(out)@ + spec_enc_initialize_ix_data(*self));
        }
    }

    /// This value's encoding as a fresh byte vector; encoding a typed
    /// value cannot fail.
    pub fn try_to_vec(&self) -> (res: Vec<u8>)
        ensures
            res@ == spec_enc_initialize_ix_data(*self),
    {
        let mut data: Vec<u8> = Vec::new();
        self.serialize(&mut data);
        proof {
            assert(data@ =~= spec_enc_initialize_ix_data(*self));
        }
        data
    }
}

/// Initialize instruction data survives an encode/decode round trip,
/// whatever trailing bytes follow the encoding.
pub proof fn lemma_initialize_ix_data_round_trip(d: InitializeIxData, tail: Seq<u8>)
    ensures
        spec_parse_initialize_ix_data(spec_enc_initialize_ix_data(d) + tail) == Some(d),
{
    lemma_initialize_ix_args_round_trip(d.0);
    let e = spec_enc_initialize_ix_data(d) + tail;
    assert(e.subrange(1, 54) =~= spec_enc_initialize_ix_args(d.0));
}

/// Arguments to add a validator to the pool.
#[derive(Clone, Copy, Debug, PartialEq, Eq, Structural)]
pub struct AddValidatorToPoolIxArgs {
    pub optional_seed: u32,
}

/// The encoding of add-validator arguments: four little-endian bytes.
pub open spec fn spec_enc_add_validator_to_pool_ix_args(a: AddValidatorToPoolIxArgs) -> Seq<u8> {
    spec_u32_to_le_bytes(a.optional_seed)
}

/// The add-validator arguments encoded in the first 4 bytes of `s`.
pub open spec fn spec_parse_add_validator_to_pool_ix_args(s: Seq<u8>) -> AddValidatorToPoolIxArgs
    recommends
        s.len() >= 4,
{
    AddValidatorToPoolIxArgs { optional_seed: spec_u32_from_le_bytes(s.subrange(0, 4)) }
}

impl AddValidatorToPoolIxArgs {
    /// Appends this value's 4-byte encoding to `out`.
    pub fn serialize(&self, out: &mut Vec<u8>)
        ensures
            final(out)@ == old(out)@ + spec_enc_add_validator_to_pool_ix_args(*self),
    {
        write_u32_le(out, self.optional_seed);
    }
}

/// Add-validator instruction data: the discriminant and the arguments.
#[derive(Clone, Copy, Debug, PartialEq, Eq, Structural)]
pub struct AddValidatorToPoolIxData(pub AddValidatorToPoolIxArgs);

/// The encoding of add-validator instruction data: 5 bytes.
pub open spec fn spec_enc_add_validator_to_pool_ix_data(d: AddValidatorToPoolIxData) -> Seq<u8> {
    seq![ADD_VALIDATOR_TO_POOL_IX_DISCM] + spec_enc_add_validator_to_pool_ix_args(d.0)
}

/// The add-validator instruction data at the start of `s`, if any.
pub open spec fn spec_parse_add_validator_to_pool_ix_data(s: Seq<u8>) -> Option<
    AddValidatorToPoolIxData,
> {
    if s.len() >= 5 && s[0] == ADD_VALIDATOR_TO_POOL_IX_DISCM {
        Some(AddValidatorToPoolIxData(spec_parse_add_validator_to_pool_ix_args(s.subrange(1, 5))))
    } else {
        None
    }
}

impl AddValidatorToPoolIxData {
    /// Reads add-validator instruction data from the start of `buf`,
    /// ignoring trailing bytes. Fails exactly when `buf` is too short or
    /// does not carry the add-validator discriminant.
    pub fn deserialize(buf: &[u8]) -> (res: Result<Self, InvalidIxDataError>)
        ensures
            match res {
                Ok(v) => spec_parse_add_validator_to_pool_ix_data(buf@) == Some(v),
                Err(_) => spec_parse_add_validator_to_pool_ix_data(buf@) is None,
            },
    {
        if buf.len() < 5 {
            return Err(InvalidIxDataError);
        }
        if buf[0] != ADD_VALIDATOR_TO_POOL_IX_DISCM {
            return Err(InvalidIxDataError);
        }
        let optional_seed = read_u32_le(buf, 1);
        proof {
            assert(buf@.subrange(1, 5).subrange(0, 4) =~= buf@.subrange(1, 5));
        }
        Ok(AddValidatorToPoolIxData(AddValidatorToPoolIxArgs { optional_seed }))
    }

    /// Appends this value's 5-byte encoding to `out`.
    pub fn serialize(&self, out: &mut Vec<u8>)
        ensures
            final(out)@ == old(out)@ + spec_enc_add_validator_to_pool_ix_data(*self),
    {
        write_u8(out, ADD_VALIDATOR_TO_POOL_IX_DISCM);
        self.0.serialize(out);
        proof {
            assert(out@ =~= old(out)@ + spec_enc_add_validator_to_pool_ix_data(*self));
        }
    }

    /// This value's encoding as a fresh byte vector; encoding a typed
    /// value cannot fail.
    pub fn try_to_vec(&self) -> (res: Vec<u8>)
        ensures
            res@ == spec_enc_add_validator_to_pool_ix_data(*self),
    {
        let mut data: Vec<u8> = Vec::new();
        self.serialize(&mut data);
        proof {
            assert(data@ =~= spec_enc_add_validator_to_pool_ix_data(*self));
        }
        data
    }
}

/// Add-validator instruction data survives an encode/decode round trip,
/// whatever trailing bytes follow the encoding.
pub proof fn lemma_add_validator_to_pool_ix_data_round_trip(
    d: AddValidatorToPoolIxData,
    tail: Seq<u8>,
)
    ensures
        spec_parse_add_validator_to_pool_ix_data(spec_enc_add_validator_to_pool_ix_data(d) + tail)
            == Some(d),
{
    lemma_auto_spec_u32_to_from_le_bytes();
    let e = spec_enc_add_validator_to_pool_ix_data(d) + tail;
    assert(e.subrange(1, 5) =~= spec_u32_to_le_bytes(d.0.optional_seed));
    assert(e.subrange(1, 5).subrange(0, 4) =~= e.subrange(1, 5));
}

/// Remove-validator instruction data: the discriminant alone.
#[derive(Clone, Copy, Debug, PartialEq, Eq, Structural)]
pub struct RemoveValidatorFromPoolIxData;

/// The encoding of remove-validator instruction data: one byte.
pub open spec fn spec_enc_remove_validator_from_pool_ix_data() -> Seq<u8> {
    seq![REMOVE_VALIDATOR_FROM_POOL_IX_DISCM]
}

/// The remove-validator instruction data at the start of `s`, if any.
pub open spec fn spec_parse_remove_validator_from_pool_ix_data(s: Seq<u8>) -> Option<
    RemoveValidatorFromPoolIxData,
> {
    if s.len() >= 1 && s[0] == REMOVE_VALIDATOR_FROM_POOL_IX_DISCM {
        Some(RemoveValidatorFromPoolIxData)
    } else {
        None
    }
}

impl RemoveValidatorFromPoolIxData {
    /// Reads remove-validator instruction data from the start of `buf`,
    /// ignoring trailing bytes. Fails exactly when `buf` is empty or
    /// does not carry the remove-validator discriminant.
    pub fn deserialize(buf: &[u8]) -> (res: Result<Self, InvalidIxDataError>)
        ensures
            match res {
                Ok(v) => spec_parse_remove_validator_from_pool_ix_data(buf@) == Some(v),
                Err(_) => spec_parse_remove_validator_from_pool_ix_data(buf@) is None,
            },
    {
        if buf.len() < 1 {
            return Err(InvalidIxDataError);
        }
        if buf[0] != REMOVE_VALIDATOR_FROM_POOL_IX_DISCM {
            return Err(InvalidIxDataError);
        }
        Ok(RemoveValidatorFromPoolIxData)
    }

    /// Appends this value's 1-byte encoding to `out`.
    pub fn serialize(&self, out: &mut Vec<u8>)
        ensures
            final(out)@ == old(out)@ + spec_enc_remove_validator_from_pool_ix_data(),
    {
        write_u8(out, REMOVE_VALIDATOR_FROM_POOL_IX_DISCM);
    }

    /// This value's encoding as a fresh byte vector; encoding a typed
    /// value cannot fail.
    pub fn try_to_vec(&self) -> (res: Vec<u8>)
        ensures
            res@ == spec_enc_remove_validator_from_pool_ix_data(),
    {
        let mut data: Vec<u8> = Vec::new();
        self.serialize(&mut data);
        proof {
            assert(data@ =~= spec_enc_remove_validator_from_pool_ix_data());
        }
        data
    }
}


/// Update-pool-balance instruction data: the discriminant alone.
#[derive(Clone, Copy, Debug, PartialEq, Eq, Structural)]
pub struct UpdateStakePoolBalanceIxData;

/// The encoding of update-pool-balance instruction data: one byte.
pub open spec fn spec_enc_update_stake_pool_balance_ix_data() -> Seq<u8> {
    seq![UPDATE_STAKE_POOL_BALANCE_IX_DISCM]
}

/// The update-pool-balance instruction data at the start of `s`, if any.
pub open spec fn spec_parse_update_stake_pool_balance_ix_data(s: Seq<u8>) -> Option<UpdateStakePoolBalanceIxData> {
    if s.len() >= 1 && s[0] == UPDATE_STAKE_POOL_BALANCE_IX_DISCM {
        Some(UpdateStakePoolBalanceIxData)
    } else {
        None
    }
}

impl UpdateStakePoolBalanceIxData {
    /// Reads update-pool-balance instruction data from the start of `buf`, ignoring
    /// trailing bytes. Fails exactly when `buf` is empty or does not
    /// carry the update-pool-balance discriminant.
    pub fn deserialize(buf: &[u8]) -> (res: Result<Self, InvalidIxDataError>)
        ensures
            match res {
                Ok(v) => spec_parse_update_stake_pool_balance_ix_data(buf@) == Some(v),
                Err(_) => spec_parse_update_stake_pool_balance_ix_data(buf@) is None,
            },
    {
        if buf.len() < 1 {
            return Err(InvalidIxDataError);
        }
        if buf[0] != UPDATE_STAKE_POOL_BALANCE_IX_DISCM {
            return Err(InvalidIxDataError);
        }
        Ok(UpdateStakePoolBalanceIxData)
    }

    /// Appends this value's 1-byte encoding to `out`.
    pub fn serialize(&self, out: &mut Vec<u8>)
        ensures
            final(out)@ == old(out)@ + spec_enc_update_stake_pool_balance_ix_data(),
    {
        write_u8(out, UPDATE_STAKE_POOL_BALANCE_IX_DISCM);
    }

    /// This value's encoding as a fresh byte vector; encoding a typed
    /// value cannot fail.
    pub fn try_to_vec(&self) -> (res: Vec<u8>)
        ensures
            res@ == spec_enc_update_stake_pool_balance_ix_data(),
    {
        let mut data: Vec<u8> = Vec::new();
        self.serialize(&mut data);
        proof {
            assert(data@ =~= spec_enc_update_stake_pool_balance_ix_data());
        }
        data
    }
}

/// Cleanup-removed-validator-entries instruction data: the discriminant alone.
#[derive(Clone, Copy, Debug, PartialEq, Eq, Structural)]
pub struct CleanupRemovedValidatorEntriesIxData;

/// The encoding of cleanup instruction data: one byte.
pub open spec fn spec_enc_cleanup_removed_validator_entries_ix_data() -> Seq<u8> {
    seq![CLEANUP_REMOVED_VALIDATOR_ENTRIES_IX_DISCM]
}

/// The cleanup instruction data at the start of `s`, if any.
pub open spec fn spec_parse_cleanup_removed_validator_entries_ix_data(s: Seq<u8>) -> Option<CleanupRemovedValidatorEntriesIxData> {
    if s.len() >= 1 && s[0] == CLEANUP_REMOVED_VALIDATOR_ENTRIES_IX_DISCM {
        Some(CleanupRemovedValidatorEntriesIxData)
    } else {
        None
    }
}

impl CleanupRemovedValidatorEntriesIxData {
    /// Reads cleanup instruction data from the start of `buf`, ignoring
    /// trailing bytes. Fails exactly when `buf` is empty or does not
    /// carry the cleanup discriminant.
    pub fn deserialize(buf: &[u8]) -> (res: Result<Self, InvalidIxDataError>)
        ensures
            match res {
                Ok(v) => spec_parse_cleanup_removed_validator_entries_ix_data(buf@) == Some(v),
                Err(_) => spec_parse_cleanup_removed_validator_entries_ix_data(buf@) is None,
            },
    {
        if buf.len() < 1 {
            return Err(InvalidIxDataError);
        }
        if buf[0] != CLEANUP_REMOVED_VALIDATOR_ENTRIES_IX_DISCM {
            return Err(InvalidIxDataError);
        }
        Ok(CleanupRemovedValidatorEntriesIxData)
    }

    /// Appends this value's 1-byte encoding to `out`.
    pub fn serialize(&self, out: &mut Vec<u8>)
        ensures
            final(out)@ == old(out)@ + spec_enc_cleanup_removed_validator_entries_ix_data(),
    {
        write_u8(out, CLEANUP_REMOVED_VALIDATOR_ENTRIES_IX_DISCM);
    }

    /// This value's encoding as a fresh byte vector; encoding a typed
    /// value cannot fail.
    pub fn try_to_vec(&self) -> (res: Vec<u8>)
        ensures
            res@ == spec_enc_cleanup_removed_validator_entries_ix_data(),
    {
        let mut data: Vec<u8> = Vec::new();
        self.serialize(&mut data);
        proof {
            assert(data@ =~= spec_enc_cleanup_removed_validator_entries_ix_data());
        }
        data
    }
}

/// Set-manager instruction data: the discriminant alone.
#[derive(Clone, Copy, Debug, PartialEq, Eq, Structural)]
pub struct SetManagerIxData;

/// The encoding of set-manager instruction data: one byte.
pub open spec fn spec_enc_set_manager_ix_data() -> Seq<u8> {
    seq![SET_MANAGER_IX_DISCM]
}

/// The set-manager instruction data at the start of `s`, if any.
pub open spec fn spec_parse_set_manager_ix_data(s: Seq<u8>) -> Option<SetManagerIxData> {
    if s.len() >= 1 && s[0] == SET_MANAGER_IX_DISCM {
        Some(SetManagerIxData)
    } else {
        None
    }
}

impl SetManagerIxData {
    /// Reads set-manager instruction data from the start of `buf`, ignoring
    /// trailing bytes. Fails exactly when `buf` is empty or does not
    /// carry the set-manager discriminant.
    pub fn deserialize(buf: &[u8]) -> (res: Result<Self, InvalidIxDataError>)
        ensures
            match res {
                Ok(v) => spec_parse_set_manager_ix_data(buf@) == Some(v),
                Err(_) => spec_parse_set_manager_ix_data(buf@) is None,
            },
    {
        if buf.len() < 1 {
            return Err(InvalidIxDataError);
        }
        if buf[0] != SET_MANAGER_IX_DISCM {
            return Err(InvalidIxDataError);
        }
        Ok(SetManagerIxData)
    }

    /// Appends this value's 1-byte encoding to `out`.
    pub fn serialize(&self, out: &mut Vec<u8>)
        ensures
            final(out)@ == old(out)@ + spec_enc_set_manager_ix_data(),
    {
        write_u8(out, SET_MANAGER_IX_DISCM);
    }

    /// This value's encoding as a fresh byte vector; encoding a typed
    /// value cannot fail.
    pub fn try_to_vec(&self) -> (res: Vec<u8>)
        ensures
            res@ == spec_enc_set_manager_ix_data(),
    {
        let mut data: Vec<u8> = Vec::new();
        self.serialize(&mut data);
        proof {
            assert(data@ =~= spec_enc_set_manager_ix_data());
        }
        data
    }
}

/// Set-staker instruction data: the discriminant alone.
#[derive(Clone, Copy, Debug, PartialEq, Eq, Structural)]
pub struct SetStakerIxData;

/// The encoding of set-staker instruction data: one byte.
pub open spec fn spec_enc_set_staker_ix_data() -> Seq<u8> {
    seq![SET_STAKER_IX_DISCM]
}

/// The set-staker instruction data at the start of `s`, if any.
pub open spec fn spec_parse_set_staker_ix_data(s: Seq<u8>) -> Option<SetStakerIxData> {
    if s.len() >= 1 && s[0] == SET_STAKER_IX_DISCM {
        Some(SetStakerIxData)
    } else {
        None
    }
}

impl SetStakerIxData {
    /// Reads set-staker instruction data from the start of `buf`, ignoring
    /// trailing bytes. Fails exactly when `buf` is empty or does not
    /// carry the set-staker discriminant.
    pub fn deserialize(buf: &[u8]) -> (res: Result<Self, InvalidIxDataError>)
        ensures
            match res {
                Ok(v) => spec_parse_set_staker_ix_data(buf@) == Some(v),
                Err(_) => spec_parse_set_staker_ix_data(buf@) is None,
            },
    {
        if buf.len() < 1 {
            return Err(InvalidIxDataError);
        }
        if buf[0] != SET_STAKER_IX_DISCM {
            return Err(InvalidIxDataError);
        }
        Ok(SetStakerIxData)
    }

    /// Appends this value's 1-byte encoding to `out`.
    pub fn serialize(&self, out: &mut Vec<u8>)
        ensures
            final(out)@ == old(out)@ + spec_enc_set_staker_ix_data(),
    {
        write_u8(out, SET_STAKER_IX_DISCM);
    }

    /// This value's encoding as a fresh byte vector; encoding a typed
    /// value cannot fail.
    pub fn try_to_vec(&self) -> (res: Vec<u8>)
        ensures
            res@ == spec_enc_set_staker_ix_data(),
    {
        let mut data: Vec<u8> = Vec::new();
        self.serialize(&mut data);
        proof {
            assert(data@ =~= spec_enc_set_staker_ix_data());
        }
        data
    }
}

/// Set-funding-authority instruction data: the discriminant alone.
#[derive(Clone, Copy, Debug, PartialEq, Eq, Structural)]
pub struct SetFundingAuthorityIxData;

/// The encoding of set-funding-authority instruction data: one byte.
pub open spec fn spec_enc_set_funding_authority_ix_data() -> Seq<u8> {
    seq![SET_FUNDING_AUTHORITY_IX_DISCM]
}

/// The set-funding-authority instruction data at the start of `s`, if any.
pub open spec fn spec_parse_set_funding_authority_ix_data(s: Seq<u8>) -> Option<SetFundingAuthorityIxData> {
    if s.len() >= 1 && s[0] == SET_FUNDING_AUTHORITY_IX_DISCM {
        Some(SetFundingAuthorityIxData)
    } else {
        None
    }
}

impl SetFundingAuthorityIxData {
    /// Reads set-funding-authority instruction data from the start of `buf`, ignoring
    /// trailing bytes. Fails exactly when `buf` is empty or does not
    /// carry the set-funding-authority discriminant.
    pub fn deserialize(buf: &[u8]) -> (res: Result<Self, InvalidIxDataError>)
        ensures
            match res {
                Ok(v) => spec_parse_set_funding_authority_ix_data(buf@) == Some(v),
                Err(_) => spec_parse_set_funding_authority_ix_data(buf@) is None,
            },
    {
        if buf.len() < 1 {
            return Err(InvalidIxDataError);
        }
        if buf[0] != SET_FUNDING_AUTHORITY_IX_DISCM {
            return Err(InvalidIxDataError);
        }
        Ok(SetFundingAuthorityIxData)
    }

    /// Appends this value's 1-byte encoding to `out`.
    pub fn serialize(&self, out: &mut Vec<u8>)
        ensures
            final(out)@ == old(out)@ + spec_enc_set_funding_authority_ix_data(),
    {
        write_u8(out, SET_FUNDING_AUTHORITY_IX_DISCM);
    }

    /// This value's encoding as a fresh byte vector; encoding a typed
    /// value cannot fail.
    pub fn try_to_vec(&self) -> (res: Vec<u8>)
        ensures
            res@ == spec_enc_set_funding_authority_ix_data(),
    {
        let mut data: Vec<u8> = Vec::new();
        self.serialize(&mut data);
        proof {
            assert(data@ =~= spec_enc_set_funding_authority_ix_data());
        }
        data
    }
}

/// Arguments to update validator list balances.
#[derive(Clone, Copy, Debug, PartialEq, Eq, Structural)]
pub struct UpdateValidatorListBalanceIxArgs {
    pub start_index: u32,
    pub no_merge: bool,
}

/// The encoding of update-validator-list-balance arguments: a
/// little-endian u32 then one boolean byte (0 or 1).
pub open spec fn spec_enc_update_validator_list_balance_ix_args(
    a: UpdateValidatorListBalanceIxArgs,
) -> Seq<u8> {
    spec_u32_to_le_bytes(a.start_index) + seq![
        if a.no_merge {
            1u8
        } else {
            0u8
        },
    ]
}

/// The update-validator-list-balance arguments encoded in the first 5
/// bytes of `s`, if any: the boolean byte must be 0 or 1.
pub open spec fn spec_parse_update_validator_list_balance_ix_args(s: Seq<u8>) -> Option<
    UpdateValidatorListBalanceIxArgs,
>
    recommends
        s.len() >= 5,
{
    if s[4] == 0 {
        Some(
            UpdateValidatorListBalanceIxArgs {
                start_index: spec_u32_from_le_bytes(s.subrange(0, 4)),
                no_merge: false,
            },
        )
    } else if s[4] == 1 {
        Some(
            UpdateValidatorListBalanceIxArgs {
                start_index: spec_u32_from_le_bytes(s.subrange(0, 4)),
                no_merge: true,
            },
        )
    } else {
        None
    }
}

impl UpdateValidatorListBalanceIxArgs {
    /// Appends this value's 5-byte encoding to `out`.
    pub fn serialize(&self, out: &mut Vec<u8>)
        ensures
            final(out)@ == old(out)@ + spec_enc_update_validator_list_balance_ix_args(*self),
    {
        write_u32_le(out, self.start_index);
        if self.no_merge {
            write_u8(out, 1);
        } else {
            write_u8(out, 0);
        }
        proof {
            assert(out@ =~= old(out)@ + spec_enc_update_validator_list_balance_ix_args(*self));
        }
    }
}

/// Update-validator-list-balance instruction data: the discriminant and
/// the arguments.
#[derive(Clone, Copy, Debug, PartialEq, Eq, Structural)]
pub struct UpdateValidatorListBalanceIxData(pub UpdateValidatorListBalanceIxArgs);

/// The encoding of update-validator-list-balance instruction data: 6
/// bytes.
pub open spec fn spec_enc_update_validator_list_balance_ix_data(
    d: UpdateValidatorListBalanceIxData,
) -> Seq<u8> {
    seq![UPDATE_VALIDATOR_LIST_BALANCE_IX_DISCM] + spec_enc_update_validator_list_balance_ix_args(
        d.0,
    )
}

/// The update-validator-list-balance instruction data at the start of
/// `s`, if any.
pub open spec fn spec_parse_update_validator_list_balance_ix_data(s: Seq<u8>) -> Option<
    UpdateValidatorListBalanceIxData,
> {
    if s.len() >= 6 && s[0] == UPDATE_VALIDATOR_LIST_BALANCE_IX_DISCM {
        match spec_parse_update_validator_list_balance_ix_args(s.subrange(1, 6)) {
            Some(a) => Some(UpdateValidatorListBalanceIxData(a)),
            None => None,
        }
    } else {
        None
    }
}

impl UpdateValidatorListBalanceIxData {
    /// Reads update-validator-list-balance instruction data from the
    /// start of `buf`, ignoring trailing bytes. Fails exactly when `buf`
    /// is too short, does not carry the right discriminant, or holds a
    /// boolean byte other than 0 or 1.
    pub fn deserialize(buf: &[u8]) -> (res: Result<Self, InvalidIxDataError>)
        ensures
            match res {
                Ok(v) => spec_parse_update_validator_list_balance_ix_data(buf@) == Some(v),
                Err(_) => spec_parse_update_validator_list_balance_ix_data(buf@) is None,
            },
    {
        if buf.len() < 6 {
            return Err(InvalidIxDataError);
        }
        if buf[0] != UPDATE_VALIDATOR_LIST_BALANCE_IX_DISCM {
            return Err(InvalidIxDataError);
        }
        let start_index = read_u32_le(buf, 1);
        let merge_byte = buf[5];
        proof {
            assert(buf@.subrange(1, 6).subrange(0, 4) =~= buf@.subrange(1, 5));
            assert(buf@.subrange(1, 6)[4] == buf@[5]);
        }
        if merge_byte == 0 {
            Ok(
                UpdateValidatorListBalanceIxData(
                    UpdateValidatorListBalanceIxArgs { start_index, no_merge: false },
                ),
            )
        } else if merge_byte == 1 {
            Ok(
                UpdateValidatorListBalanceIxData(
                    UpdateValidatorListBalanceIxArgs { start_index, no_merge: true },
                ),
            )
        } else {
            Err(InvalidIxDataError)
        }
    }

    /// Appends this value's 6-byte encoding to `out`.
    pub fn serialize(&self, out: &mut Vec<u8>)
        ensures
            final(out)@ == old(out)@ + spec_enc_update_validator_list_balance_ix_data(*self),
    {
        write_u8(out, UPDATE_VALIDATOR_LIST_BALANCE_IX_DISCM);
        self.0.serialize(out);
        proof {
            assert(out@ =~= old(out)@ + spec_enc_update_validator_list_balance_ix_data(*self));
        }
    }

    /// This value's encoding as a fresh byte vector; encoding a typed
    /// value cannot fail.
    pub fn try_to_vec(&self) -> (res: Vec<u8>)
        ensures
            res@ == spec_enc_update_validator_list_balance_ix_data(*self),
    {
        let mut data: Vec<u8> = Vec::new();
        self.serialize(&mut data);
        proof {
            assert(data@ =~= spec_enc_update_validator_list_balance_ix_data(*self));
        }
        data
    }
}

/// Update-validator-list-balance instruction data survives an
/// encode/decode round trip, whatever trailing bytes follow.
pub proof fn lemma_update_validator_list_balance_ix_data_round_trip(
    d: UpdateValidatorListBalanceIxData,
    tail: Seq<u8>,
)
    ensures
        spec_parse_update_validator_list_balance_ix_data(
            spec_enc_update_validator_list_balance_ix_data(d) + tail,
        ) == Some(d),
{
    lemma_auto_spec_u32_to_from_le_bytes();
    let e = spec_enc_update_validator_list_balance_ix_data(d) + tail;
    assert(e.subrange(1, 6).subrange(0, 4) =~= spec_u32_to_le_bytes(d.0.start_index));
    assert(e.subrange(1, 6)[4] == e[5]);
}

/// Arguments naming the fee being set and its new value.
#[derive(Clone, Copy, Debug, PartialEq, Eq, Structural)]
pub struct SetFeeIxArgs {
    pub fee: FeeType,
}

/// The encoding of set-fee arguments: the fee type's encoding.
pub open spec fn spec_enc_set_fee_ix_args(a: SetFeeIxArgs) -> Seq<u8> {
    spec_enc_fee_type(a.fee)
}

impl SetFeeIxArgs {
    /// Appends this value's encoding to `out`.
    pub fn serialize(&self, out: &mut Vec<u8>)
        ensures
            final(out)@ == old(out)@ + spec_enc_set_fee_ix_args(*self),
    {
        self.fee.serialize(out);
    }
}

/// Set-fee instruction data: the discriminant and the arguments.
#[derive(Clone, Copy, Debug, PartialEq, Eq, Structural)]
pub struct SetFeeIxData(pub SetFeeIxArgs);

/// The encoding of set-fee instruction data: the discriminant then the
/// fee type.
pub open spec fn spec_enc_set_fee_ix_data(d: SetFeeIxData) -> Seq<u8> {
    seq![SET_FEE_IX_DISCM] + spec_enc_set_fee_ix_args(d.0)
}

/// The set-fee instruction data at the start of `s`, if any.
pub open spec fn spec_parse_set_fee_ix_data(s: Seq<u8>) -> Option<SetFeeIxData> {
    if s.len() >= 1 && s[0] == SET_FEE_IX_DISCM {
        match spec_parse_fee_type(s.subrange(1, s.len() as int)) {
            Some(ft) => Some(SetFeeIxData(SetFeeIxArgs { fee: ft })),
            None => None,
        }
    } else {
        None
    }
}

impl SetFeeIxData {
    /// Reads set-fee instruction data from the start of `buf`, ignoring
    /// trailing bytes. Fails exactly when `buf` is too short, does not
    /// carry the set-fee discriminant, or holds an ill-formed fee type.
    pub fn deserialize(buf: &[u8]) -> (res: Result<Self, InvalidIxDataError>)
        ensures
            match res {
                Ok(v) => spec_parse_set_fee_ix_data(buf@) == Some(v),
                Err(_) => spec_parse_set_fee_ix_data(buf@) is None,
            },
    {
        if buf.len() < 1 {
            return Err(InvalidIxDataError);
        }
        if buf[0] != SET_FEE_IX_DISCM {
            return Err(InvalidIxDataError);
        }
        match read_fee_type(buf, 1) {
            Some(ft) => Ok(SetFeeIxData(SetFeeIxArgs { fee: ft })),
            None => Err(InvalidIxDataError),
        }
    }

    /// Appends this value's encoding to `out`.
    pub fn serialize(&self, out: &mut Vec<u8>)
        ensures
            final(out)@ == old(out)@ + spec_enc_set_fee_ix_data(*self),
    {
        write_u8(out, SET_FEE_IX_DISCM);
        self.0.serialize(out);
        proof {
            assert(out@ =~= old(out)@ + spec_enc_set_fee_ix_data(*self));
        }
    }

    /// This value's encoding as a fresh byte vector; encoding a typed
    /// value cannot fail.
    pub fn try_to_vec(&self) -> (res: Vec<u8>)
        ensures
            res@ == spec_enc_set_fee_ix_data(*self),
    {
        let mut data: Vec<u8> = Vec::new();
        self.serialize(&mut data);
        proof {
            assert(data@ =~= spec_enc_set_fee_ix_data(*self));
        }
        data
    }
}

/// Set-fee instruction data survives an encode/decode round trip,
/// whatever trailing bytes follow.
pub proof fn lemma_set_fee_ix_data_round_trip(d: SetFeeIxData, tail: Seq<u8>)
    ensures
        spec_parse_set_fee_ix_data(spec_enc_set_fee_ix_data(d) + tail) == Some(d),
{
    lemma_fee_type_round_trip(d.0.fee, tail);
    let e = spec_enc_set_fee_ix_data(d) + tail;
    assert(e.subrange(1, e.len() as int) =~= spec_enc_fee_type(d.0.fee) + tail);
}

/// Arguments to increase a validator's stake by an additional amount.
#[derive(Clone, Copy, Debug, PartialEq, Eq, Structural)]
pub struct IncreaseAdditionalValidatorStakeIxArgs {
    pub args: AdditionalValidatorStakeArgs,
}

/// The encoding of increase-additional-stake arguments: 24 bytes.
pub open spec fn spec_enc_increase_additional_validator_stake_ix_args(a: IncreaseAdditionalValidatorStakeIxArgs) -> Seq<u8> {
    spec_enc_additional_validator_stake_args(a.args)
}

/// The increase-additional-stake arguments encoded in the first 24 bytes
/// of `s`.
pub open spec fn spec_parse_increase_additional_validator_stake_ix_args(s: Seq<u8>) -> IncreaseAdditionalValidatorStakeIxArgs
    recommends
        s.len() >= 24,
{
    IncreaseAdditionalValidatorStakeIxArgs { args: spec_parse_additional_validator_stake_args(s.subrange(0, 24)) }
}

impl IncreaseAdditionalValidatorStakeIxArgs {
    /// Appends this value's 24-byte encoding to `out`.
    pub fn serialize(&self, out: &mut Vec<u8>)
        ensures
            final(out)@ == old(out)@ + spec_enc_increase_additional_validator_stake_ix_args(*self),
    {
        self.args.serialize(out);
    }
}

/// Increase-additional-stake instruction data: the discriminant and the
/// arguments.
#[derive(Clone, Copy, Debug, PartialEq, Eq, Structural)]
pub struct IncreaseAdditionalValidatorStakeIxData(pub IncreaseAdditionalValidatorStakeIxArgs);

/// The encoding of increase-additional-stake instruction data: 25 bytes.
pub open spec fn spec_enc_increase_additional_validator_stake_ix_data(d: IncreaseAdditionalValidatorStakeIxData) -> Seq<u8> {
    seq![INCREASE_ADDITIONAL_VALIDATOR_STAKE_IX_DISCM] + spec_enc_increase_additional_validator_stake_ix_args(d.0)
}

/// The increase-additional-stake instruction data at the start of `s`,
/// if any.
pub open spec fn spec_parse_increase_additional_validator_stake_ix_data(s: Seq<u8>) -> Option<IncreaseAdditionalValidatorStakeIxData> {
    if s.len() >= 25 && s[0] == INCREASE_ADDITIONAL_VALIDATOR_STAKE_IX_DISCM {
        Some(IncreaseAdditionalValidatorStakeIxData(spec_parse_increase_additional_validator_stake_ix_args(s.subrange(1, 25))))
    } else {
        None
    }
}

impl IncreaseAdditionalValidatorStakeIxData {
    /// Reads increase-additional-stake instruction data from the start of
    /// `buf`, ignoring trailing bytes. Fails exactly when `buf` is too
    /// short or does not carry the right discriminant.
    pub fn deserialize(buf: &[u8]) -> (res: Result<Self, InvalidIxDataError>)
        ensures
            match res {
                Ok(v) => spec_parse_increase_additional_validator_stake_ix_data(buf@) == Some(v),
                Err(_) => spec_parse_increase_additional_validator_stake_ix_data(buf@) is None,
            },
    {
        if buf.len() < 25 {
            return Err(InvalidIxDataError);
        }
        if buf[0] != INCREASE_ADDITIONAL_VALIDATOR_STAKE_IX_DISCM {
            return Err(InvalidIxDataError);
        }
        let args = read_additional_validator_stake_args(buf, 1);
        proof {
            assert(buf@.subrange(1, 25).subrange(0, 24) =~= buf@.subrange(1, 25));
        }
        Ok(IncreaseAdditionalValidatorStakeIxData(IncreaseAdditionalValidatorStakeIxArgs { args }))
    }

    /// Appends this value's 25-byte encoding to `out`.
    pub fn serialize(&self, out: &mut Vec<u8>)
        ensures
            final(out)@ == old(out)@ + spec_enc_increase_additional_validator_stake_ix_data(*self),
    {
        write_u8(out, INCREASE_ADDITIONAL_VALIDATOR_STAKE_IX_DISCM);
        self.0.serialize(out);
        proof {
            assert(out@ =~= old(out)@ + spec_enc_increase_additional_validator_stake_ix_data(*self));
        }
    }

    /// This value's encoding as a fresh byte vector; encoding a typed
    /// value cannot fail.
    pub fn try_to_vec(&self) -> (res: Vec<u8>)
        ensures
            res@ == spec_enc_increase_additional_validator_stake_ix_data(*self),
    {
        let mut data: Vec<u8> = Vec::new();
        self.serialize(&mut data);
        proof {
            assert(data@ =~= spec_enc_increase_additional_validator_stake_ix_data(*self));
        }
        data
    }
}

/// Increase-additional-stake instruction data survives an encode/decode
/// round trip, whatever trailing bytes follow.
pub proof fn lemma_increase_additional_validator_stake_ix_data_round_trip(d: IncreaseAdditionalValidatorStakeIxData, tail: Seq<u8>)
    ensures
        spec_parse_increase_additional_validator_stake_ix_data(spec_enc_increase_additional_validator_stake_ix_data(d) + tail) == Some(d),
{
    lemma_additional_validator_stake_args_round_trip(d.0.args);
    let e = spec_enc_increase_additional_validator_stake_ix_data(d) + tail;
    assert(e.subrange(1, 25) =~= spec_enc_additional_validator_stake_args(d.0.args));
    assert(e.subrange(1, 25).subrange(0, 24) =~= e.subrange(1, 25));
}

/// Arguments to decrease a validator's stake by an additional amount.
#[derive(Clone, Copy, Debug, PartialEq, Eq, Structural)]
pub struct DecreaseAdditionalValidatorStakeIxArgs {
    pub args: AdditionalValidatorStakeArgs,
}

/// The encoding of decrease-additional-stake arguments: 24 bytes.
pub open spec fn spec_enc_decrease_additional_validator_stake_ix_args(a: DecreaseAdditionalValidatorStakeIxArgs) -> Seq<u8> {
    spec_enc_additional_validator_stake_args(a.args)
}

/// The decrease-additional-stake arguments encoded in the first 24 bytes
/// of `s`.
pub open spec fn spec_parse_decrease_additional_validator_stake_ix_args(s: Seq<u8>) -> DecreaseAdditionalValidatorStakeIxArgs
    recommends
        s.len() >= 24,
{
    DecreaseAdditionalValidatorStakeIxArgs { args: spec_parse_additional_validator_stake_args(s.subrange(0, 24)) }
}

impl DecreaseAdditionalValidatorStakeIxArgs {
    /// Appends this value's 24-byte encoding to `out`.
    pub fn serialize(&self, out: &mut Vec<u8>)
        ensures
            final(out)@ == old(out)@ + spec_enc_decrease_additional_validator_stake_ix_args(*self),
    {
        self.args.serialize(out);
    }
}

/// Decrease-additional-stake instruction data: the discriminant and the
/// arguments.
#[derive(Clone, Copy, Debug, PartialEq, Eq, Structural)]
pub struct DecreaseAdditionalValidatorStakeIxData(pub DecreaseAdditionalValidatorStakeIxArgs);

/// The encoding of decrease-additional-stake instruction data: 25 bytes.
pub open spec fn spec_enc_decrease_additional_validator_stake_ix_data(d: DecreaseAdditionalValidatorStakeIxData) -> Seq<u8> {
    seq![DECREASE_ADDITIONAL_VALIDATOR_STAKE_IX_DISCM] + spec_enc_decrease_additional_validator_stake_ix_args(d.0)
}

/// The decrease-additional-stake instruction data at the start of `s`,
/// if any.
pub open spec fn spec_parse_decrease_additional_validator_stake_ix_data(s: Seq<u8>) -> Option<DecreaseAdditionalValidatorStakeIxData> {
    if s.len() >= 25 && s[0] == DECREASE_ADDITIONAL_VALIDATOR_STAKE_IX_DISCM {
        Some(DecreaseAdditionalValidatorStakeIxData(spec_parse_decrease_additional_validator_stake_ix_args(s.subrange(1, 25))))
    } else {
        None
    }
}

impl DecreaseAdditionalValidatorStakeIxData {
    /// Reads decrease-additional-stake instruction data from the start of
    /// `buf`, ignoring trailing bytes. Fails exactly when `buf` is too
    /// short or does not carry the right discriminant.
    pub fn deserialize(buf: &[u8]) -> (res: Result<Self, InvalidIxDataError>)
        ensures
            match res {
                Ok(v) => spec_parse_decrease_additional_validator_stake_ix_data(buf@) == Some(v),
                Err(_) => spec_parse_decrease_additional_validator_stake_ix_data(buf@) is None,
            },
    {
        if buf.len() < 25 {
            return Err(InvalidIxDataError);
        }
        if buf[0] != DECREASE_ADDITIONAL_VALIDATOR_STAKE_IX_DISCM {
            return Err(InvalidIxDataError);
        }
        let args = read_additional_validator_stake_args(buf, 1);
        proof {
            assert(buf@.subrange(1, 25).subrange(0, 24) =~= buf@.subrange(1, 25));
        }
        Ok(DecreaseAdditionalValidatorStakeIxData(DecreaseAdditionalValidatorStakeIxArgs { args }))
    }

    /// Appends this value's 25-byte encoding to `out`.
    pub fn serialize(&self, out: &mut Vec<u8>)
        ensures
            final(out)@ == old(out)@ + spec_enc_decrease_additional_validator_stake_ix_data(*self),
    {
        write_u8(out, DECREASE_ADDITIONAL_VALIDATOR_STAKE_IX_DISCM);
        self.0.serialize(out);
        proof {
            assert(out@ =~= old(out)@ + spec_enc_decrease_additional_validator_stake_ix_data(*self));
        }
    }

    /// This value's encoding as a fresh byte vector; encoding a typed
    /// value cannot fail.
    pub fn try_to_vec(&self) -> (res: Vec<u8>)
        ensures
            res@ == spec_enc_decrease_additional_validator_stake_ix_data(*self),
    {
        let mut data: Vec<u8> = Vec::new();
        self.serialize(&mut data);
        proof {
            assert(data@ =~= spec_enc_decrease_additional_validator_stake_ix_data(*self));
        }
        data
    }
}

/// Decrease-additional-stake instruction data survives an encode/decode
/// round trip, whatever trailing bytes follow.
pub proof fn lemma_decrease_additional_validator_stake_ix_data_round_trip(d: DecreaseAdditionalValidatorStakeIxData, tail: Seq<u8>)
    ensures
        spec_parse_decrease_additional_validator_stake_ix_data(spec_enc_decrease_additional_validator_stake_ix_data(d) + tail) == Some(d),
{
    lemma_additional_validator_stake_args_round_trip(d.0.args);
    let e = spec_enc_decrease_additional_validator_stake_ix_data(d) + tail;
    assert(e.subrange(1, 25) =~= spec_enc_additional_validator_stake_args(d.0.args));
    assert(e.subrange(1, 25).subrange(0, 24) =~= e.subrange(1, 25));
}

/// A whole stake-pool program instruction: which operation, with its
/// arguments.
#[derive(Clone, Copy, Debug, PartialEq, Eq, Structural)]
pub enum SplStakePoolProgramIx {
    Initialize(InitializeIxArgs),
    AddValidatorToPool(AddValidatorToPoolIxArgs),
    RemoveValidatorFromPool,
    UpdateValidatorListBalance(UpdateValidatorListBalanceIxArgs),
    UpdateStakePoolBalance,
    CleanupRemovedValidatorEntries,
    SetManager,
    SetFee(SetFeeIxArgs),
    SetStaker,
    SetFundingAuthority,
    IncreaseAdditionalValidatorStake(IncreaseAdditionalValidatorStakeIxArgs),
    DecreaseAdditionalValidatorStake(DecreaseAdditionalValidatorStakeIxArgs),
}

/// The encoding of a program instruction: its discriminant byte, then
/// its arguments' encoding.
pub open spec fn spec_enc_program_ix(ix: SplStakePoolProgramIx) -> Seq<u8> {
    match ix {
        SplStakePoolProgramIx::Initialize(a) => seq![INITIALIZE_IX_DISCM]
            + spec_enc_initialize_ix_args(a),
        SplStakePoolProgramIx::AddValidatorToPool(a) => seq![ADD_VALIDATOR_TO_POOL_IX_DISCM]
            + spec_enc_add_validator_to_pool_ix_args(a),
        SplStakePoolProgramIx::RemoveValidatorFromPool => seq![
            REMOVE_VALIDATOR_FROM_POOL_IX_DISCM,
        ],
        SplStakePoolProgramIx::UpdateValidatorListBalance(a) => seq![
            UPDATE_VALIDATOR_LIST_BALANCE_IX_DISCM,
        ] + spec_enc_update_validator_list_balance_ix_args(a),
        SplStakePoolProgramIx::UpdateStakePoolBalance => seq![UPDATE_STAKE_POOL_BALANCE_IX_DISCM],
        SplStakePoolProgramIx::CleanupRemovedValidatorEntries => seq![
            CLEANUP_REMOVED_VALIDATOR_ENTRIES_IX_DISCM,
        ],
        SplStakePoolProgramIx::SetManager => seq![SET_MANAGER_IX_DISCM],
        SplStakePoolProgramIx::SetFee(a) => seq![SET_FEE_IX_DISCM] + spec_enc_set_fee_ix_args(a),
        SplStakePoolProgramIx::SetStaker => seq![SET_STAKER_IX_DISCM],
        SplStakePoolProgramIx::SetFundingAuthority => seq![SET_FUNDING_AUTHORITY_IX_DISCM],
        SplStakePoolProgramIx::IncreaseAdditionalValidatorStake(a) => seq![
            INCREASE_ADDITIONAL_VALIDATOR_STAKE_IX_DISCM,
        ] + spec_enc_increase_additional_validator_stake_ix_args(a),
        SplStakePoolProgramIx::DecreaseAdditionalValidatorStake(a) => seq![
            DECREASE_ADDITIONAL_VALIDATOR_STAKE_IX_DISCM,
        ] + spec_enc_decrease_additional_validator_stake_ix_args(a),
    }
}

/// The program instruction encoded at the start of `s`, if any: `None`
/// on an empty buffer, an unknown discriminant, or ill-formed
/// arguments.
pub open spec fn spec_parse_program_ix(s: Seq<u8>) -> Option<SplStakePoolProgramIx> {
    if s.len() < 1 {
        None
    } else if s[0] == INITIALIZE_IX_DISCM {
        if s.len() >= 54 {
            Some(SplStakePoolProgramIx::Initialize(spec_parse_initialize_ix_args(s.subrange(1, 54))))
        } else {
            None
        }
    } else if s[0] == ADD_VALIDATOR_TO_POOL_IX_DISCM {
        if s.len() >= 5 {
            Some(
                SplStakePoolProgramIx::AddValidatorToPool(
                    spec_parse_add_validator_to_pool_ix_args(s.subrange(1, 5)),
                ),
            )
        } else {
            None
        }
    } else if s[0] == REMOVE_VALIDATOR_FROM_POOL_IX_DISCM {
        Some(SplStakePoolProgramIx::RemoveValidatorFromPool)
    } else if s[0] == UPDATE_VALIDATOR_LIST_BALANCE_IX_DISCM {
        if s.len() >= 6 {
            match spec_parse_update_validator_list_balance_ix_args(s.subrange(1, 6)) {
                Some(a) => Some(SplStakePoolProgramIx::UpdateValidatorListBalance(a)),
                None => None,
            }
        } else {
            None
        }
    } else if s[0] == UPDATE_STAKE_POOL_BALANCE_IX_DISCM {
        Some(SplStakePoolProgramIx::UpdateStakePoolBalance)
    } else if s[0] == CLEANUP_REMOVED_VALIDATOR_ENTRIES_IX_DISCM {
        Some(SplStakePoolProgramIx::CleanupRemovedValidatorEntries)
    } else if s[0] == SET_MANAGER_IX_DISCM {
        Some(SplStakePoolProgramIx::SetManager)
    } else if s[0] == SET_FEE_IX_DISCM {
        match spec_parse_fee_type(s.subrange(1, s.len() as int)) {
            Some(ft) => Some(SplStakePoolProgramIx::SetFee(SetFeeIxArgs { fee: ft })),
            None => None,
        }
    } else if s[0] == SET_STAKER_IX_DISCM {
        Some(SplStakePoolProgramIx::SetStaker)
    } else if s[0] == SET_FUNDING_AUTHORITY_IX_DISCM {
        Some(SplStakePoolProgramIx::SetFundingAuthority)
    } else if s[0] == INCREASE_ADDITIONAL_VALIDATOR_STAKE_IX_DISCM {
        if s.len() >= 25 {
            Some(
                SplStakePoolProgramIx::IncreaseAdditionalValidatorStake(
                    spec_parse_increase_additional_validator_stake_ix_args(s.subrange(1, 25)),
                ),
            )
        } else {
            None
        }
    } else if s[0] == DECREASE_ADDITIONAL_VALIDATOR_STAKE_IX_DISCM {
        if s.len() >= 25 {
            Some(
                SplStakePoolProgramIx::DecreaseAdditionalValidatorStake(
                    spec_parse_decrease_additional_validator_stake_ix_args(s.subrange(1, 25)),
                ),
            )
        } else {
            None
        }
    } else {
        None
    }
}

impl SplStakePoolProgramIx {
    /// Reads a program instruction from the start of `buf`, ignoring
    /// trailing bytes. Fails exactly when `buf` is empty, its first byte
    /// is not a known discriminant, or the arguments after the
    /// discriminant are missing or ill-formed.
    pub fn deserialize(buf: &[u8]) -> (res: Result<Self, InvalidIxDataError>)
        ensures
            match res {
                Ok(v) => spec_parse_program_ix(buf@) == Some(v),
                Err(_) => spec_parse_program_ix(buf@) is None,
            },
    {
        if buf.len() < 1 {
            return Err(InvalidIxDataError);
        }
        let discm = buf[0];
        if discm == INITIALIZE_IX_DISCM {
            if buf.len() < 54 {
                return Err(InvalidIxDataError);
            }
            let args = read_initialize_ix_args(buf, 1);
            Ok(SplStakePoolProgramIx::Initialize(args))
        } else if discm == ADD_VALIDATOR_TO_POOL_IX_DISCM {
            if buf.len() < 5 {
                return Err(InvalidIxDataError);
            }
            let optional_seed = read_u32_le(buf, 1);
            proof {
                assert(buf@.subrange(1, 5).subrange(0, 4) =~= buf@.subrange(1, 5));
            }
            Ok(
                SplStakePoolProgramIx::AddValidatorToPool(
                    AddValidatorToPoolIxArgs { optional_seed },
                ),
            )
        } else if discm == REMOVE_VALIDATOR_FROM_POOL_IX_DISCM {
            Ok(SplStakePoolProgramIx::RemoveValidatorFromPool)
        } else if discm == UPDATE_VALIDATOR_LIST_BALANCE_IX_DISCM {
            if buf.len() < 6 {
                return Err(InvalidIxDataError);
            }
            let start_index = read_u32_le(buf, 1);
            let merge_byte = buf[5];
            proof {
                assert(buf@.subrange(1, 6).subrange(0, 4) =~= buf@.subrange(1, 5));
                assert(buf@.subrange(1, 6)[4] == buf@[5]);
            }
            if merge_byte == 0 {
                Ok(
                    SplStakePoolProgramIx::UpdateValidatorListBalance(
                        UpdateValidatorListBalanceIxArgs { start_index, no_merge: false },
                    ),
                )
            } else if merge_byte == 1 {
                Ok(
                    SplStakePoolProgramIx::UpdateValidatorListBalance(
                        UpdateValidatorListBalanceIxArgs { start_index, no_merge: true },
                    ),
                )
            } else {
                Err(InvalidIxDataError)
            }
        } else if discm == UPDATE_STAKE_POOL_BALANCE_IX_DISCM {
            Ok(SplStakePoolProgramIx::UpdateStakePoolBalance)
        } else if discm == CLEANUP_REMOVED_VALIDATOR_ENTRIES_IX_DISCM {
            Ok(SplStakePoolProgramIx::CleanupRemovedValidatorEntries)
        } else if discm == SET_MANAGER_IX_DISCM {
            Ok(SplStakePoolProgramIx::SetManager)
        } else if discm == SET_FEE_IX_DISCM {
            match read_fee_type(buf, 1) {
                Some(ft) => Ok(SplStakePoolProgramIx::SetFee(SetFeeIxArgs { fee: ft })),
                None => Err(InvalidIxDataError),
            }
        } else if discm == SET_STAKER_IX_DISCM {
            Ok(SplStakePoolProgramIx::SetStaker)
        } else if discm == SET_FUNDING_AUTHORITY_IX_DISCM {
            Ok(SplStakePoolProgramIx::SetFundingAuthority)
        } else if discm == INCREASE_ADDITIONAL_VALIDATOR_STAKE_IX_DISCM {
            if buf.len() < 25 {
                return Err(InvalidIxDataError);
            }
            let args = read_additional_validator_stake_args(buf, 1);
            proof {
                assert(buf@.subrange(1, 25).subrange(0, 24) =~= buf@.subrange(1, 25));
            }
            Ok(
                SplStakePoolProgramIx::IncreaseAdditionalValidatorStake(
                    IncreaseAdditionalValidatorStakeIxArgs { args },
                ),
            )
        } else if discm == DECREASE_ADDITIONAL_VALIDATOR_STAKE_IX_DISCM {
            if buf.len() < 25 {
                return Err(InvalidIxDataError);
            }
            let args = read_additional_validator_stake_args(buf, 1);
            proof {
                assert(buf@.subrange(1, 25).subrange(0, 24) =~= buf@.subrange(1, 25));
            }
            Ok(
                SplStakePoolProgramIx::DecreaseAdditionalValidatorStake(
                    DecreaseAdditionalValidatorStakeIxArgs { args },
                ),
            )
        } else {
            Err(InvalidIxDataError)
        }
    }

    /// Appends this instruction's encoding to `out`: the discriminant,
    /// then the arguments.
    pub fn serialize(&self, out: &mut Vec<u8>)
        ensures
            final(out)@ == old(out)@ + spec_enc_program_ix(*self),
    {
        match self {
            SplStakePoolProgramIx::Initialize(args) => {
                write_u8(out, INITIALIZE_IX_DISCM);
                args.serialize(out);
            },
            SplStakePoolProgramIx::AddValidatorToPool(args) => {
                write_u8(out, ADD_VALIDATOR_TO_POOL_IX_DISCM);
                args.serialize(out);
            },
            SplStakePoolProgramIx::RemoveValidatorFromPool => {
                write_u8(out, REMOVE_VALIDATOR_FROM_POOL_IX_DISCM);
            },
            SplStakePoolProgramIx::UpdateValidatorListBalance(args) => {
                write_u8(out, UPDATE_VALIDATOR_LIST_BALANCE_IX_DISCM);
                args.serialize(out);
            },
            SplStakePoolProgramIx::UpdateStakePoolBalance => {
                write_u8(out, UPDATE_STAKE_POOL_BALANCE_IX_DISCM);
            },
            SplStakePoolProgramIx::CleanupRemovedValidatorEntries => {
                write_u8(out, CLEANUP_REMOVED_VALIDATOR_ENTRIES_IX_DISCM);
            },
            SplStakePoolProgramIx::SetManager => {
                write_u8(out, SET_MANAGER_IX_DISCM);
            },
            SplStakePoolProgramIx::SetFee(args) => {
                write_u8(out, SET_FEE_IX_DISCM);
                args.serialize(out);
            },
            SplStakePoolProgramIx::SetStaker => {
                write_u8(out, SET_STAKER_IX_DISCM);
            },
            SplStakePoolProgramIx::SetFundingAuthority => {
                write_u8(out, SET_FUNDING_AUTHORITY_IX_DISCM);
            },
            SplStakePoolProgramIx::IncreaseAdditionalValidatorStake(args) => {
                write_u8(out, INCREASE_ADDITIONAL_VALIDATOR_STAKE_IX_DISCM);
                args.serialize(out);
            },
            SplStakePoolProgramIx::DecreaseAdditionalValidatorStake(args) => {
                write_u8(out, DECREASE_ADDITIONAL_VALIDATOR_STAKE_IX_DISCM);
                args.serialize(out);
            },
        }
        proof {
            assert(out@ =~= old(out)@ + spec_enc_program_ix(*self));
        }
    }

    /// This instruction's encoding as a fresh byte vector; encoding a
    /// typed value cannot fail.
    pub fn try_to_vec(&self) -> (res: Vec<u8>)
        ensures
            res@ == spec_enc_program_ix(*self),
    {
        let mut data: Vec<u8> = Vec::new();
        self.serialize(&mut data);
        proof {
            assert(data@ =~= spec_enc_program_ix(*self));
        }
        data
    }
}

/// A program instruction survives an encode/decode round trip, whatever
/// trailing bytes follow its encoding.
pub proof fn lemma_program_ix_round_trip(ix: SplStakePoolProgramIx, tail: Seq<u8>)
    ensures
        spec_parse_program_ix(spec_enc_program_ix(ix) + tail) == Some(ix),
{
    let e = spec_enc_program_ix(ix) + tail;
    match ix {
        SplStakePoolProgramIx::Initialize(a) => {
            lemma_initialize_ix_args_round_trip(a);
            assert(e.subrange(1, 54) =~= spec_enc_initialize_ix_args(a));
        },
        SplStakePoolProgramIx::AddValidatorToPool(a) => {
            lemma_auto_spec_u32_to_from_le_bytes();
            assert(e.subrange(1, 5) =~= spec_u32_to_le_bytes(a.optional_seed));
            assert(e.subrange(1, 5).subrange(0, 4) =~= e.subrange(1, 5));
        },
        SplStakePoolProgramIx::RemoveValidatorFromPool => {
        },
        SplStakePoolProgramIx::UpdateValidatorListBalance(a) => {
            lemma_auto_spec_u32_to_from_le_bytes();
            assert(e.subrange(1, 6).subrange(0, 4) =~= spec_u32_to_le_bytes(a.start_index));
            assert(e.subrange(1, 6)[4] == e[5]);
        },
        SplStakePoolProgramIx::UpdateStakePoolBalance => {
        },
        SplStakePoolProgramIx::CleanupRemovedValidatorEntries => {
        },
        SplStakePoolProgramIx::SetManager => {
        },
        SplStakePoolProgramIx::SetFee(a) => {
            lemma_fee_type_round_trip(a.fee, tail);
            assert(e.subrange(1, e.len() as int) =~= spec_enc_fee_type(a.fee) + tail);
        },
        SplStakePoolProgramIx::SetStaker => {
        },
        SplStakePoolProgramIx::SetFundingAuthority => {
        },
        SplStakePoolProgramIx::IncreaseAdditionalValidatorStake(a) => {
            lemma_additional_validator_stake_args_round_trip(a.args);
            assert(e.subrange(1, 25) =~= spec_enc_additional_validator_stake_args(a.args));
            assert(e.subrange(1, 25).subrange(0, 24) =~= e.subrange(1, 25));
        },
        SplStakePoolProgramIx::DecreaseAdditionalValidatorStake(a) => {
            lemma_additional_validator_stake_args_round_trip(a.args);
            assert(e.subrange(1, 25) =~= spec_enc_additional_validator_stake_args(a.args));
            assert(e.subrange(1, 25).subrange(0, 24) =~= e.subrange(1, 25));
        },
    }
}
} // verus!
