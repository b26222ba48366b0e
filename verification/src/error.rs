//! Structured mismatch reports returned when validation fails.
use vstd::prelude::*;
use crate::observe::IntObserved;

verus! {

/// The kind and magnitude of an observed value that failed validation,
/// exactly as the decoder presented it: a signed observation is reported
/// signed, an unsigned one unsigned, both at full precision.
#[derive(Clone, Copy, Debug)]
pub enum Unexpected {
    /// An observed boolean.
    Bool(bool),
    /// An observed signed integer, of any width, widened losslessly.
    Signed(i128),
    /// An observed unsigned integer, of any width, widened losslessly.
    Unsigned(u128),
    /// An observed character.
    Char(char),
}

/// Why validation failed.
#[derive(Debug)]
pub enum ConstError {
    /// The observed value does not equal the required constant.
    ValueMismatch {
        /// What the decoder presented, in its original representation.
        observed: Unexpected,
        /// The rendering of the required constant.
        expected: String,
    },
    /// A text observation did not decode to exactly one character.
    LengthMismatch {
        /// 0 for an empty text, 2 for more than one character.
        len: usize,
        /// The rendering of the required constant.
        expected: String,
    },
}

/// The report for a failed integer observation: its representation is kept,
/// never re-signed.
pub open spec fn unexpected_int(obs: IntObserved) -> Unexpected {
    match obs {
        IntObserved::Signed(v) => Unexpected::Signed(v),
        IntObserved::Unsigned(v) => Unexpected::Unsigned(v),
    }
}

/// Builds the report for a failed integer observation.
pub fn report_int(obs: IntObserved) -> (r: Unexpected)
    ensures
        r == unexpected_int(obs),
{
    match obs {
        IntObserved::Signed(v) => Unexpected::Signed(v),
        IntObserved::Unsigned(v) => Unexpected::Unsigned(v),
    }
}

} // verus!
