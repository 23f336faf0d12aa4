//! The closed set of arithmetic failure kinds shared by every fallible
//! operation of the engine, and its mapping to the single program-level
//! error code reserved for the engine.

use vstd::prelude::*;

verus! {

/// The reserved program-level custom error code that stands for "the
/// fee/ratio engine failed" in the enclosing program's error space.
pub const MATH_ERROR_PROGRAM_ERROR_CODE: u32 = 696969;

/// An arithmetic failure of the engine.
///
/// The set is closed: every fallible operation fails with one of these
/// two kinds and surfaces it verbatim to the caller.
#[derive(Debug, Copy, Clone, PartialEq, Eq, Structural)]
pub enum MathError {
    /// A required intermediate value could not be represented even after
    /// widening, or no representable input exists for a requested reverse
    /// computation.
    Overflow,
    /// A fee specification's numerator exceeds its denominator (a fee
    /// greater than 100%).
    InvalidFeeSpec,
}

impl MathError {
    /// The numeric code the enclosing program reports for this error.
    /// Every kind maps to the one reserved sentinel code.
    pub fn program_error_code(&self) -> (code: u32)
        ensures
            code == MATH_ERROR_PROGRAM_ERROR_CODE,
    {
        MATH_ERROR_PROGRAM_ERROR_CODE
    }
}

} // verus!
