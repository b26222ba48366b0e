//! A constant boolean.
use vstd::prelude::*;
use crate::error::{ConstError, Unexpected};
use crate::render::{bool_string, spec_bool_text};

verus! {

/// Whether an observed boolean equals the constant. No widening is needed.
pub open spec fn bool_matches(constant: bool, observed: bool) -> bool {
    observed == constant
}

/// A constant `bool`: emits its fixed value, and validates that an observed
/// boolean equals it.
#[derive(Clone, Copy, Debug, PartialEq, Eq)]
pub struct ConstBool {
    /// The fixed constant.
    pub value: bool,
}

impl ConstBool {
    /// Wraps the constant `value`.
    pub fn new(value: bool) -> (r: Self)
        ensures
            r.value == value,
    {
        ConstBool { value }
    }

    /// Emits the constant in its native representation. Never fails.
    pub fn emit(&self) -> (r: bool)
        ensures
            r == self.value,
    {
        self.value
    }

    /// Renders the constant for "expected ..." messages.
    pub fn describe(&self) -> (r: String)
        ensures
            r@ == spec_bool_text(self.value),
    {
        bool_string(self.value)
    }

    /// Validates an observed boolean: returns the wrapper exactly when it
    /// equals the constant, and otherwise a mismatch naming the observed
    /// boolean and the expected rendering.
    pub fn validate(&self, observed: bool) -> (r: Result<Self, ConstError>)
        ensures
            r is Ok <==> bool_matches(self.value, observed),
            r matches Ok(c) ==> c == *self,
            r matches Err(e) ==> e matches ConstError::ValueMismatch { observed: reported, expected }
                && reported == Unexpected::Bool(observed)
                && expected@ == spec_bool_text(self.value),
    {
        if observed == self.value {
            Ok(ConstBool { value: self.value })
        } else {
            Err(ConstError::ValueMismatch {
                observed: Unexpected::Bool(observed),
                expected: bool_string(self.value),
            })
        }
    }
}

} // verus!
