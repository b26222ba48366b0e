//! The core validator: normalize an observed integer into a wide comparison
//! domain and compare it against a constant.
use vstd::prelude::*;
use crate::error::{ConstError, unexpected_int, report_int};
use crate::observe::{IntObserved, int_matches};
use crate::render::{dec_string_i128, dec_string_u128, spec_dec_int, spec_dec_nat};

verus! {

/// Validates an observed integer of any width and signedness against a signed
/// constant. An unsigned observation whose magnitude exceeds the signed range
/// can never equal the constant and is rejected without truncation.
pub fn check_signed(constant: i128, obs: IntObserved) -> (r: Result<(), ConstError>)
    ensures
        r is Ok <==> int_matches(constant as int, obs),
        r matches Err(e) ==> e matches ConstError::ValueMismatch { observed, expected }
            && observed == unexpected_int(obs)
            && expected@ == spec_dec_int(constant as int),
{
    let matched: bool = match obs {
        IntObserved::Signed(v) => v == constant,
        IntObserved::Unsigned(v) => v <= (i128::MAX as u128) && (v as i128) == constant,
    };
    if matched {
        Ok(())
    } else {
        Err(ConstError::ValueMismatch {
            observed: report_int(obs),
            expected: dec_string_i128(constant),
        })
    }
}

/// Validates an observed integer of any width and signedness against an
/// unsigned constant. A negative observation never matches; it is rejected
/// cleanly and reported with its own sign and magnitude.
pub fn check_unsigned(constant: u128, obs: IntObserved) -> (r: Result<(), ConstError>)
    ensures
        r is Ok <==> int_matches(constant as int, obs),
        r matches Err(e) ==> e matches ConstError::ValueMismatch { observed, expected }
            && observed == unexpected_int(obs)
            && expected@ == spec_dec_nat(constant as nat),
{
    let matched: bool = match obs {
        IntObserved::Signed(v) => v >= 0 && (v as u128) == constant,
        IntObserved::Unsigned(v) => v == constant,
    };
    if matched {
        Ok(())
    } else {
        Err(ConstError::ValueMismatch {
            observed: report_int(obs),
            expected: dec_string_u128(constant),
        })
    }
}

} // verus!
