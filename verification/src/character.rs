//! A constant character.
use vstd::prelude::*;
use vstd::string::*;
use crate::error::{ConstError, Unexpected};
use crate::render::{char_string, spec_char_text};

verus! {

/// Whether an observed character equals the constant.
pub open spec fn char_matches(constant: char, observed: char) -> bool {
    observed == constant
}

/// A constant `char`: emits its fixed value as a single character, and
/// validates that an observed character — or a text of exactly one
/// character — equals it.
#[derive(Clone, Copy, Debug, PartialEq, Eq)]
pub struct ConstChar {
    /// The fixed constant.
    pub value: char,
}

impl ConstChar {
    /// Wraps the constant `value`.
    pub fn new(value: char) -> (r: Self)
        ensures
            r.value == value,
    {
        ConstChar { value }
    }

    /// Emits the constant as a single character, never as a longer text.
    /// Never fails.
    pub fn emit(&self) -> (r: char)
        ensures
            r == self.value,
    {
        self.value
    }

    /// Renders the constant for "expected ..." messages, quoted so the kind
    /// is unambiguous.
    pub fn describe(&self) -> (r: String)
        ensures
            r@ == spec_char_text(self.value),
    {
        char_string(self.value)
    }

    /// Validates an observed character: returns the wrapper exactly when it
    /// equals the constant, and otherwise a mismatch naming the observed
    /// character and the expected rendering.
    pub fn validate_char(&self, observed: char) -> (r: Result<Self, ConstError>)
        ensures
            r is Ok <==> char_matches(self.value, observed),
            r matches Ok(c) ==> c == *self,
            r matches Err(e) ==> e matches ConstError::ValueMismatch { observed: reported, expected }
                && reported == Unexpected::Char(observed)
                && expected@ == spec_char_text(self.value),
    {
        if observed == self.value {
            Ok(ConstChar { value: self.value })
        } else {
            Err(ConstError::ValueMismatch {
                observed: Unexpected::Char(observed),
                expected: char_string(self.value),
            })
        }
    }

    /// Validates an observed text: it must hold exactly one character — an
    /// empty text fails with a length mismatch reporting 0, more than one
    /// character with a length mismatch reporting 2 — and that character is
    /// then compared like a direct character observation.
    pub fn validate_text(&self, observed: &str) -> (r: Result<Self, ConstError>)
        ensures
            r is Ok <==> observed@.len() == 1 && char_matches(self.value, observed@[0]),
            r matches Ok(c) ==> c == *self,
            observed@.len() == 0 ==> (r matches Err(e)
                && e matches ConstError::LengthMismatch { len, expected }
                && len == 0
                && expected@ == spec_char_text(self.value)),
            observed@.len() > 1 ==> (r matches Err(e)
                && e matches ConstError::LengthMismatch { len, expected }
                && len == 2
                && expected@ == spec_char_text(self.value)),
            observed@.len() == 1 && !char_matches(self.value, observed@[0]) ==> (r matches Err(e)
                && e matches ConstError::ValueMismatch { observed: reported, expected }
                && reported == Unexpected::Char(observed@[0])
                && expected@ == spec_char_text(self.value)),
    {
        let n = observed.unicode_len();
        if n == 0 {
            Err(ConstError::LengthMismatch { len: 0, expected: char_string(self.value) })
        } else if n > 1 {
            Err(ConstError::LengthMismatch { len: 2, expected: char_string(self.value) })
        } else {
            let c = observed.get_char(0);
            self.validate_char(c)
        }
    }
}

} // verus!
