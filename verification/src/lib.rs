//! Fixed-point ratio and proportional-fee arithmetic over 64-bit token
//! amounts, together with the byte-level codec for the stake-pool
//! instruction data that carries such fees.
//!
//! Every fallible operation returns a typed error instead of wrapping or
//! truncating, and rounding always favors the protocol: fees are rounded
//! up, remainders down.

pub mod amts_after_fee;
mod div_char;
pub mod instructions;
mod le_bytes;
pub mod math_error;
pub mod return_data;
pub mod rounding;
pub mod typedefs;
pub mod u64_bps_fee_ceil;
pub mod u64_fee_ceil;
pub mod u64_ratio;
pub mod u64_value_range;
