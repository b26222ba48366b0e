//! Constant integers, one thin wrapper per width and signedness, all
//! validating through the shared widen-and-compare routine.
use vstd::prelude::*;
use crate::error::{ConstError, unexpected_int};
use crate::observe::{IntObserved, int_matches};
use crate::render::{spec_dec_int, spec_dec_nat, dec_string_i128, dec_string_u128};
use crate::validate::{check_signed, check_unsigned};

verus! {

/// A constant `i8`: emits its fixed value, and validates that an observed
/// integer of any width and signedness equals it.
#[derive(Clone, Copy, Debug, PartialEq, Eq)]
pub struct ConstI8 {
    /// The fixed constant.
    pub value: i8,
}

impl ConstI8 {
    /// Wraps the constant `value`.
    pub fn new(value: i8) -> (r: Self)
        ensures
            r.value == value,
    {
        ConstI8 { value }
    }

    /// Emits the constant in its native representation. Never fails.
    pub fn emit(&self) -> (r: i8)
        ensures
            r == self.value,
    {
        self.value
    }

    /// Renders the constant for "expected ..." messages.
    pub fn describe(&self) -> (r: String)
        ensures
            r@ == spec_dec_int(self.value as int),
    {
        dec_string_i128(self.value as i128)
    }

    /// Validates an observed integer: representation never matters, only
    /// sign and magnitude.
    pub fn validate(&self, obs: IntObserved) -> (r: Result<Self, ConstError>)
        ensures
            r is Ok <==> int_matches(self.value as int, obs),
            r matches Ok(c) ==> c == *self,
            r matches Err(e) ==> e matches ConstError::ValueMismatch { observed, expected }
                && observed == unexpected_int(obs)
                && expected@ == spec_dec_int(self.value as int),
    {
        match check_signed(self.value as i128, obs) {
            Ok(()) => Ok(ConstI8 { value: self.value }),
            Err(e) => Err(e),
        }
    }
}

/// A constant `i16`: emits its fixed value, and validates that an observed
/// integer of any width and signedness equals it.
#[derive(Clone, Copy, Debug, PartialEq, Eq)]
pub struct ConstI16 {
    /// The fixed constant.
    pub value: i16,
}

impl ConstI16 {
    /// Wraps the constant `value`.
    pub fn new(value: i16) -> (r: Self)
        ensures
            r.value == value,
    {
        ConstI16 { value }
    }

    /// Emits the constant in its native representation. Never fails.
    pub fn emit(&self) -> (r: i16)
        ensures
            r == self.value,
    {
        self.value
    }

    /// Renders the constant for "expected ..." messages.
    pub fn describe(&self) -> (r: String)
        ensures
            r@ == spec_dec_int(self.value as int),
    {
        dec_string_i128(self.value as i128)
    }

    /// Validates an observed integer: representation never matters, only
    /// sign and magnitude.
    pub fn validate(&self, obs: IntObserved) -> (r: Result<Self, ConstError>)
        ensures
            r is Ok <==> int_matches(self.value as int, obs),
            r matches Ok(c) ==> c == *self,
            r matches Err(e) ==> e matches ConstError::ValueMismatch { observed, expected }
                && observed == unexpected_int(obs)
                && expected@ == spec_dec_int(self.value as int),
    {
        match check_signed(self.value as i128, obs) {
            Ok(()) => Ok(ConstI16 { value: self.value }),
            Err(e) => Err(e),
        }
    }
}

/// A constant `i32`: emits its fixed value, and validates that an observed
/// integer of any width and signedness equals it.
#[derive(Clone, Copy, Debug, PartialEq, Eq)]
pub struct ConstI32 {
    /// The fixed constant.
    pub value: i32,
}

impl ConstI32 {
    /// Wraps the constant `value`.
    pub fn new(value: i32) -> (r: Self)
        ensures
            r.value == value,
    {
        ConstI32 { value }
    }

    /// Emits the constant in its native representation. Never fails.
    pub fn emit(&self) -> (r: i32)
        ensures
            r == self.value,
    {
        self.value
    }

    /// Renders the constant for "expected ..." messages.
    pub fn describe(&self) -> (r: String)
        ensures
            r@ == spec_dec_int(self.value as int),
    {
        dec_string_i128(self.value as i128)
    }

    /// Validates an observed integer: representation never matters, only
    /// sign and magnitude.
    pub fn validate(&self, obs: IntObserved) -> (r: Result<Self, ConstError>)
        ensures
            r is Ok <==> int_matches(self.value as int, obs),
            r matches Ok(c) ==> c == *self,
            r matches Err(e) ==> e matches ConstError::ValueMismatch { observed, expected }
                && observed == unexpected_int(obs)
                && expected@ == spec_dec_int(self.value as int),
    {
        match check_signed(self.value as i128, obs) {
            Ok(()) => Ok(ConstI32 { value: self.value }),
            Err(e) => Err(e),
        }
    }
}

/// A constant `i64`: emits its fixed value, and validates that an observed
/// integer of any width and signedness equals it.
#[derive(Clone, Copy, Debug, PartialEq, Eq)]
pub struct ConstI64 {
    /// The fixed constant.
    pub value: i64,
}

impl ConstI64 {
    /// Wraps the constant `value`.
    pub fn new(value: i64) -> (r: Self)
        ensures
            r.value == value,
    {
        ConstI64 { value }
    }

    /// Emits the constant in its native representation. Never fails.
    pub fn emit(&self) -> (r: i64)
        ensures
            r == self.value,
    {
        self.value
    }

    /// Renders the constant for "expected ..." messages.
    pub fn describe(&self) -> (r: String)
        ensures
            r@ == spec_dec_int(self.value as int),
    {
        dec_string_i128(self.value as i128)
    }

    /// Validates an observed integer: representation never matters, only
    /// sign and magnitude.
    pub fn validate(&self, obs: IntObserved) -> (r: Result<Self, ConstError>)
        ensures
            r is Ok <==> int_matches(self.value as int, obs),
            r matches Ok(c) ==> c == *self,
            r matches Err(e) ==> e matches ConstError::ValueMismatch { observed, expected }
                && observed == unexpected_int(obs)
                && expected@ == spec_dec_int(self.value as int),
    {
        match check_signed(self.value as i128, obs) {
            Ok(()) => Ok(ConstI64 { value: self.value }),
            Err(e) => Err(e),
        }
    }
}

/// A constant `i128`: emits its fixed value, and validates that an observed
/// integer of any width and signedness equals it.
#[derive(Clone, Copy, Debug, PartialEq, Eq)]
pub struct ConstI128 {
    /// The fixed constant.
    pub value: i128,
}

impl ConstI128 {
    /// Wraps the constant `value`.
    pub fn new(value: i128) -> (r: Self)
        ensures
            r.value == value,
    {
        ConstI128 { value }
    }

    /// Emits the constant in its native representation. Never fails.
    pub fn emit(&self) -> (r: i128)
        ensures
            r == self.value,
    {
        self.value
    }

    /// Renders the constant for "expected ..." messages.
    pub fn describe(&self) -> (r: String)
        ensures
            r@ == spec_dec_int(self.value as int),
    {
        dec_string_i128(self.value as i128)
    }

    /// Validates an observed integer: representation never matters, only
    /// sign and magnitude.
    pub fn validate(&self, obs: IntObserved) -> (r: Result<Self, ConstError>)
        ensures
            r is Ok <==> int_matches(self.value as int, obs),
            r matches Ok(c) ==> c == *self,
            r matches Err(e) ==> e matches ConstError::ValueMismatch { observed, expected }
                && observed == unexpected_int(obs)
                && expected@ == spec_dec_int(self.value as int),
    {
        match check_signed(self.value as i128, obs) {
            Ok(()) => Ok(ConstI128 { value: self.value }),
            Err(e) => Err(e),
        }
    }
}

/// A constant `u8`: emits its fixed value, and validates that an observed
/// integer of any width and signedness equals it. A negative observation
/// never matches.
#[derive(Clone, Copy, Debug, PartialEq, Eq)]
pub struct ConstU8 {
    /// The fixed constant.
    pub value: u8,
}

impl ConstU8 {
    /// Wraps the constant `value`.
    pub fn new(value: u8) -> (r: Self)
        ensures
            r.value == value,
    {
        ConstU8 { value }
    }

    /// Emits the constant in its native representation. Never fails.
    pub fn emit(&self) -> (r: u8)
        ensures
            r == self.value,
    {
        self.value
    }

    /// Renders the constant for "expected ..." messages.
    pub fn describe(&self) -> (r: String)
        ensures
            r@ == spec_dec_nat(self.value as nat),
    {
        dec_string_u128(self.value as u128)
    }

    /// Validates an observed integer: representation never matters, only
    /// sign and magnitude.
    pub fn validate(&self, obs: IntObserved) -> (r: Result<Self, ConstError>)
        ensures
            r is Ok <==> int_matches(self.value as int, obs),
            r matches Ok(c) ==> c == *self,
            r matches Err(e) ==> e matches ConstError::ValueMismatch { observed, expected }
                && observed == unexpected_int(obs)
                && expected@ == spec_dec_nat(self.value as nat),
    {
        match check_unsigned(self.value as u128, obs) {
            Ok(()) => Ok(ConstU8 { value: self.value }),
            Err(e) => Err(e),
        }
    }
}

/// A constant `u16`: emits its fixed value, and validates that an observed
/// integer of any width and signedness equals it. A negative observation
/// never matches.
#[derive(Clone, Copy, Debug, PartialEq, Eq)]
pub struct ConstU16 {
    /// The fixed constant.
    pub value: u16,
}

impl ConstU16 {
    /// Wraps the constant `value`.
    pub fn new(value: u16) -> (r: Self)
        ensures
            r.value == value,
    {
        ConstU16 { value }
    }

    /// Emits the constant in its native representation. Never fails.
    pub fn emit(&self) -> (r: u16)
        ensures
            r == self.value,
    {
        self.value
    }

    /// Renders the constant for "expected ..." messages.
    pub fn describe(&self) -> (r: String)
        ensures
            r@ == spec_dec_nat(self.value as nat),
    {
        dec_string_u128(self.value as u128)
    }

    /// Validates an observed integer: representation never matters, only
    /// sign and magnitude.
    pub fn validate(&self, obs: IntObserved) -> (r: Result<Self, ConstError>)
        ensures
            r is Ok <==> int_matches(self.value as int, obs),
            r matches Ok(c) ==> c == *self,
            r matches Err(e) ==> e matches ConstError::ValueMismatch { observed, expected }
                && observed == unexpected_int(obs)
                && expected@ == spec_dec_nat(self.value as nat),
    {
        match check_unsigned(self.value as u128, obs) {
            Ok(()) => Ok(ConstU16 { value: self.value }),
            Err(e) => Err(e),
        }
    }
}

/// A constant `u32`: emits its fixed value, and validates that an observed
/// integer of any width and signedness equals it. A negative observation
/// never matches.
#[derive(Clone, Copy, Debug, PartialEq, Eq)]
pub struct ConstU32 {
    /// The fixed constant.
    pub value: u32,
}

impl ConstU32 {
    /// Wraps the constant `value`.
    pub fn new(value: u32) -> (r: Self)
        ensures
            r.value == value,
    {
        ConstU32 { value }
    }

    /// Emits the constant in its native representation. Never fails.
    pub fn emit(&self) -> (r: u32)
        ensures
            r == self.value,
    {
        self.value
    }

    /// Renders the constant for "expected ..." messages.
    pub fn describe(&self) -> (r: String)
        ensures
            r@ == spec_dec_nat(self.value as nat),
    {
        dec_string_u128(self.value as u128)
    }

    /// Validates an observed integer: representation never matters, only
    /// sign and magnitude.
    pub fn validate(&self, obs: IntObserved) -> (r: Result<Self, ConstError>)
        ensures
            r is Ok <==> int_matches(self.value as int, obs),
            r matches Ok(c) ==> c == *self,
            r matches Err(e) ==> e matches ConstError::ValueMismatch { observed, expected }
                && observed == unexpected_int(obs)
                && expected@ == spec_dec_nat(self.value as nat),
    {
        match check_unsigned(self.value as u128, obs) {
            Ok(()) => Ok(ConstU32 { value: self.value }),
            Err(e) => Err(e),
        }
    }
}

/// A constant `u64`: emits its fixed value, and validates that an observed
/// integer of any width and signedness equals it. A negative observation
/// never matches.
#[derive(Clone, Copy, Debug, PartialEq, Eq)]
pub struct ConstU64 {
    /// The fixed constant.
    pub value: u64,
}

impl ConstU64 {
    /// Wraps the constant `value`.
    pub fn new(value: u64) -> (r: Self)
        ensures
            r.value == value,
    {
        ConstU64 { value }
    }

    /// Emits the constant in its native representation. Never fails.
    pub fn emit(&self) -> (r: u64)
        ensures
            r == self.value,
    {
        self.value
    }

    /// Renders the constant for "expected ..." messages.
    pub fn describe(&self) -> (r: String)
        ensures
            r@ == spec_dec_nat(self.value as nat),
    {
        dec_string_u128(self.value as u128)
    }

    /// Validates an observed integer: representation never matters, only
    /// sign and magnitude.
    pub fn validate(&self, obs: IntObserved) -> (r: Result<Self, ConstError>)
        ensures
            r is Ok <==> int_matches(self.value as int, obs),
            r matches Ok(c) ==> c == *self,
            r matches Err(e) ==> e matches ConstError::ValueMismatch { observed, expected }
                && observed == unexpected_int(obs)
                && expected@ == spec_dec_nat(self.value as nat),
    {
        match check_unsigned(self.value as u128, obs) {
            Ok(()) => Ok(ConstU64 { value: self.value }),
            Err(e) => Err(e),
        }
    }
}

/// A constant `u128`: emits its fixed value, and validates that an observed
/// integer of any width and signedness equals it. A negative observation
/// never matches.
#[derive(Clone, Copy, Debug, PartialEq, Eq)]
pub struct ConstU128 {
    /// The fixed constant.
    pub value: u128,
}

impl ConstU128 {
    /// Wraps the constant `value`.
    pub fn new(value: u128) -> (r: Self)
        ensures
            r.value == value,
    {
        ConstU128 { value }
    }

    /// Emits the constant in its native representation. Never fails.
    pub fn emit(&self) -> (r: u128)
        ensures
            r == self.value,
    {
        self.value
    }

    /// Renders the constant for "expected ..." messages.
    pub fn describe(&self) -> (r: String)
        ensures
            r@ == spec_dec_nat(self.value as nat),
    {
        dec_string_u128(self.value as u128)
    }

    /// Validates an observed integer: representation never matters, only
    /// sign and magnitude.
    pub fn validate(&self, obs: IntObserved) -> (r: Result<Self, ConstError>)
        ensures
            r is Ok <==> int_matches(self.value as int, obs),
            r matches Ok(c) ==> c == *self,
            r matches Err(e) ==> e matches ConstError::ValueMismatch { observed, expected }
                && observed == unexpected_int(obs)
                && expected@ == spec_dec_nat(self.value as nat),
    {
        match check_unsigned(self.value as u128, obs) {
            Ok(()) => Ok(ConstU128 { value: self.value }),
            Err(e) => Err(e),
        }
    }
}

} // verus!
