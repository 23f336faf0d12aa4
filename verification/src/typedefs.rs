//! The argument value types carried inside stake-pool instruction data,
//! with their exact byte encodings: fields in declaration order, integers
//! little-endian, enums as one tag byte followed by the payload.

use vstd::bytes::{
    lemma_auto_spec_u64_to_from_le_bytes, spec_u64_from_le_bytes, spec_u64_to_le_bytes,
};
use vstd::prelude::*;

use crate::le_bytes::{read_u64_le, write_u64_le, write_u8};

verus! {

/// A protocol fee as a numerator over a denominator.
#[derive(Clone, Copy, Debug, PartialEq, Eq, Structural)]
pub struct Fee {
    pub denominator: u64,
    pub numerator: u64,
}

/// The encoding of a fee: its denominator then its numerator, each as
/// eight little-endian bytes.
pub open spec fn spec_enc_fee(fee: Fee) -> Seq<u8> {
    spec_u64_to_le_bytes(fee.denominator) + spec_u64_to_le_bytes(fee.numerator)
}

/// The fee whose encoding is the first 16 bytes of `s`.
pub open spec fn spec_parse_fee(s: Seq<u8>) -> Fee
    recommends
        s.len() >= 16,
{
    Fee {
        denominator: spec_u64_from_le_bytes(s.subrange(0, 8)),
        numerator: spec_u64_from_le_bytes(s.subrange(8, 16)),
    }
}

impl Fee {
    /// Appends this fee's 16-byte encoding to `out`.
    pub fn serialize(&self, out: &mut Vec<u8>)
        ensures
            final(out)@ == old(out)@ + spec_enc_fee(*self),
    {
        write_u64_le(out, self.denominator);
        write_u64_le(out, self.numerator);
        proof {
            assert(out@ =~= old(out)@ + spec_enc_fee(*self));
        }
    }
}

/// Reads the fee encoded at `offset`.
pub(crate) fn read_fee(buf: &[u8], offset: usize) -> (fee: Fee)
    requires
        offset + 16 <= buf@.len(),
    ensures
        fee == spec_parse_fee(buf@.subrange(offset as int, offset as int + 16)),
{
    let _n: usize = buf.len();
    let denominator = read_u64_le(buf, offset);
    let numerator = read_u64_le(buf, offset + 8);
    proof {
        let s = buf@.subrange(offset as int, offset as int + 16);
        assert(s.subrange(0, 8) =~= buf@.subrange(offset as int, offset as int + 8));
        assert(s.subrange(8, 16) =~= buf@.subrange(offset as int + 8, offset as int + 16));
    }
    Fee { denominator, numerator }
}

/// Encoding and parsing of a fee invert each other.
pub proof fn lemma_fee_round_trip(fee: Fee)
    ensures
        spec_enc_fee(fee).len() == 16,
        spec_parse_fee(spec_enc_fee(fee)) == fee,
{
    lemma_auto_spec_u64_to_from_le_bytes();
    let e = spec_enc_fee(fee);
    assert(e.subrange(0, 8) =~= spec_u64_to_le_bytes(fee.denominator));
    assert(e.subrange(8, 16) =~= spec_u64_to_le_bytes(fee.numerator));
}

/// Which fee of the stake pool is being set, with its new value. Encoded
/// as one tag byte — the variant's position — then the payload.
#[derive(Clone, Copy, Debug, PartialEq, Eq, Structural)]
pub enum FeeType {
    SolReferral(u8),
    StakeReferral(u8),
    Epoch(Fee),
    StakeWithdrawal(Fee),
    SolDeposit(Fee),
    StakeDeposit(Fee),
    SolWithdrawal(Fee),
}

/// The encoding of a fee type: its tag byte, then a referral percentage
/// byte or a 16-byte fee.
pub open spec fn spec_enc_fee_type(ft: FeeType) -> Seq<u8> {
    match ft {
        FeeType::SolReferral(v) => seq![0u8, v],
        FeeType::StakeReferral(v) => seq![1u8, v],
        FeeType::Epoch(f) => seq![2u8] + spec_enc_fee(f),
        FeeType::StakeWithdrawal(f) => seq![3u8] + spec_enc_fee(f),
        FeeType::SolDeposit(f) => seq![4u8] + spec_enc_fee(f),
        FeeType::StakeDeposit(f) => seq![5u8] + spec_enc_fee(f),
        FeeType::SolWithdrawal(f) => seq![6u8] + spec_enc_fee(f),
    }
}

/// The fee type encoded at the start of `s`, if any: `None` on an
/// unknown tag or a buffer too short for the tag's payload.
pub open spec fn spec_parse_fee_type(s: Seq<u8>) -> Option<FeeType> {
    if s.len() < 1 {
        None
    } else if s[0] == 0 {
        if s.len() >= 2 {
            Some(FeeType::SolReferral(s[1]))
        } else {
            None
        }
    } else if s[0] == 1 {
        if s.len() >= 2 {
            Some(FeeType::StakeReferral(s[1]))
        } else {
            None
        }
    } else if s[0] == 2 {
        if s.len() >= 17 {
            Some(FeeType::Epoch(spec_parse_fee(s.subrange(1, 17))))
        } else {
            None
        }
    } else if s[0] == 3 {
        if s.len() >= 17 {
            Some(FeeType::StakeWithdrawal(spec_parse_fee(s.subrange(1, 17))))
        } else {
            None
        }
    } else if s[0] == 4 {
        if s.len() >= 17 {
            Some(FeeType::SolDeposit(spec_parse_fee(s.subrange(1, 17))))
        } else {
            None
        }
    } else if s[0] == 5 {
        if s.len() >= 17 {
            Some(FeeType::StakeDeposit(spec_parse_fee(s.subrange(1, 17))))
        } else {
            None
        }
    } else if s[0] == 6 {
        if s.len() >= 17 {
            Some(FeeType::SolWithdrawal(spec_parse_fee(s.subrange(1, 17))))
        } else {
            None
        }
    } else {
        None
    }
}

impl FeeType {
    /// Appends this fee type's encoding to `out`.
    pub fn serialize(&self, out: &mut Vec<u8>)
        ensures
            final(out)@ == old(out)@ + spec_enc_fee_type(*self),
    {
        match self {
            FeeType::SolReferral(v) => {
                write_u8(out, 0);
                write_u8(out, *v);
            },
            FeeType::StakeReferral(v) => {
                write_u8(out, 1);
                write_u8(out, *v);
            },
            FeeType::Epoch(f) => {
                write_u8(out, 2);
                f.serialize(out);
            },
            FeeType::StakeWithdrawal(f) => {
                write_u8(out, 3);
                f.serialize(out);
            },
            FeeType::SolDeposit(f) => {
                write_u8(out, 4);
                f.serialize(out);
            },
            FeeType::StakeDeposit(f) => {
                write_u8(out, 5);
                f.serialize(out);
            },
            FeeType::SolWithdrawal(f) => {
                write_u8(out, 6);
                f.serialize(out);
            },
        }
        proof {
            assert(out@ =~= old(out)@ + spec_enc_fee_type(*self));
        }
    }
}

/// Reads the fee type encoded from `offset` to the end of `buf`.
pub(crate) fn read_fee_type(buf: &[u8], offset: usize) -> (res: Option<FeeType>)
    requires
        offset <= buf@.len(),
    ensures
        res == spec_parse_fee_type(buf@.subrange(offset as int, buf@.len() as int)),
{
    let _n: usize = buf.len();
    proof {
        let s = buf@.subrange(offset as int, buf@.len() as int);
        assert(s.len() == buf@.len() - offset);
    }
    if buf.len() - offset < 1 {
        return None;
    }
    let tag = buf[offset];
    if tag == 0 || tag == 1 {
        if buf.len() - offset < 2 {
            return None;
        }
        let v = buf[offset + 1];
        if tag == 0 {
            Some(FeeType::SolReferral(v))
        } else {
            Some(FeeType::StakeReferral(v))
        }
    } else if tag <= 6 {
        if buf.len() - offset < 17 {
            return None;
        }
        let f = read_fee(buf, offset + 1);
        proof {
            let s = buf@.subrange(offset as int, buf@.len() as int);
            assert(s.subrange(1, 17) =~= buf@.subrange(offset as int + 1, offset as int + 17));
        }
        if tag == 2 {
            Some(FeeType::Epoch(f))
        } else if tag == 3 {
            Some(FeeType::StakeWithdrawal(f))
        } else if tag == 4 {
            Some(FeeType::SolDeposit(f))
        } else if tag == 5 {
            Some(FeeType::StakeDeposit(f))
        } else {
            Some(FeeType::SolWithdrawal(f))
        }
    } else {
        None
    }
}

/// Encoding and parsing of a fee type invert each other, whatever
/// trailing bytes follow the encoding.
pub proof fn lemma_fee_type_round_trip(ft: FeeType, tail: Seq<u8>)
    ensures
        spec_parse_fee_type(spec_enc_fee_type(ft) + tail) == Some(ft),
{
    let e = spec_enc_fee_type(ft) + tail;
    match ft {
        FeeType::SolReferral(v) => {
            assert(e[0] == 0 && e[1] == v);
        },
        FeeType::StakeReferral(v) => {
            assert(e[0] == 1 && e[1] == v);
        },
        FeeType::Epoch(f) => {
            lemma_fee_round_trip(f);
            assert(e.subrange(1, 17) =~= spec_enc_fee(f));
        },
        FeeType::StakeWithdrawal(f) => {
            lemma_fee_round_trip(f);
            assert(e.subrange(1, 17) =~= spec_enc_fee(f));
        },
        FeeType::SolDeposit(f) => {
            lemma_fee_round_trip(f);
            assert(e.subrange(1, 17) =~= spec_enc_fee(f));
        },
        FeeType::StakeDeposit(f) => {
            lemma_fee_round_trip(f);
            assert(e.subrange(1, 17) =~= spec_enc_fee(f));
        },
        FeeType::SolWithdrawal(f) => {
            lemma_fee_round_trip(f);
            assert(e.subrange(1, 17) =~= spec_enc_fee(f));
        },
    }
}

/// Arguments for moving additional stake to or from a validator.
#[derive(Clone, Copy, Debug, PartialEq, Eq, Structural)]
pub struct AdditionalValidatorStakeArgs {
    pub lamports: u64,
    pub transient_stake_seed: u64,
    pub ephemeral_stake_seed: u64,
}

/// The encoding of additional-stake arguments: three little-endian u64
/// fields in declaration order.
pub open spec fn spec_enc_additional_validator_stake_args(
    a: AdditionalValidatorStakeArgs,
) -> Seq<u8> {
    spec_u64_to_le_bytes(a.lamports) + spec_u64_to_le_bytes(a.transient_stake_seed)
        + spec_u64_to_le_bytes(a.ephemeral_stake_seed)
}

/// The additional-stake arguments encoded in the first 24 bytes of `s`.
pub open spec fn spec_parse_additional_validator_stake_args(
    s: Seq<u8>,
) -> AdditionalValidatorStakeArgs
    recommends
        s.len() >= 24,
{
    AdditionalValidatorStakeArgs {
        lamports: spec_u64_from_le_bytes(s.subrange(0, 8)),
        transient_stake_seed: spec_u64_from_le_bytes(s.subrange(8, 16)),
        ephemeral_stake_seed: spec_u64_from_le_bytes(s.subrange(16, 24)),
    }
}

impl AdditionalValidatorStakeArgs {
    /// Appends this value's 24-byte encoding to `out`.
    pub fn serialize(&self, out: &mut Vec<u8>)
        ensures
            final(out)@ == old(out)@ + spec_enc_additional_validator_stake_args(*self),
    {
        write_u64_le(out, self.lamports);
        write_u64_le(out, self.transient_stake_seed);
        write_u64_le(out, self.ephemeral_stake_seed);
        proof {
            assert(out@ =~= old(out)@ + spec_enc_additional_validator_stake_args(*self));
        }
    }
}

/// Reads the additional-stake arguments encoded at `offset`.
pub(crate) fn read_additional_validator_stake_args(
    buf: &[u8],
    offset: usize,
) -> (a: AdditionalValidatorStakeArgs)
    requires
        offset + 24 <= buf@.len(),
    ensures
        a == spec_parse_additional_validator_stake_args(
            buf@.subrange(offset as int, offset as int + 24),
        ),
{
    let _n: usize = buf.len();
    let lamports = read_u64_le(buf, offset);
    let transient_stake_seed = read_u64_le(buf, offset + 8);
    let ephemeral_stake_seed = read_u64_le(buf, offset + 16);
    proof {
        let s = buf@.subrange(offset as int, offset as int + 24);
        assert(s.subrange(0, 8) =~= buf@.subrange(offset as int, offset as int + 8));
        assert(s.subrange(8, 16) =~= buf@.subrange(offset as int + 8, offset as int + 16));
        assert(s.subrange(16, 24) =~= buf@.subrange(offset as int + 16, offset as int + 24));
    }
    AdditionalValidatorStakeArgs { lamports, transient_stake_seed, ephemeral_stake_seed }
}

/// Encoding and parsing of additional-stake arguments invert each other.
pub proof fn lemma_additional_validator_stake_args_round_trip(a: AdditionalValidatorStakeArgs)
    ensures
        spec_enc_additional_validator_stake_args(a).len() == 24,
        spec_parse_additional_validator_stake_args(spec_enc_additional_validator_stake_args(a))
            == a,
{
    lemma_auto_spec_u64_to_from_le_bytes();
    let e = spec_enc_additional_validator_stake_args(a);
    assert(e.subrange(0, 8) =~= spec_u64_to_le_bytes(a.lamports));
    assert(e.subrange(8, 16) =~= spec_u64_to_le_bytes(a.transient_stake_seed));
    assert(e.subrange(16, 24) =~= spec_u64_to_le_bytes(a.ephemeral_stake_seed));
}

} // verus!
