//! Laws of the validation model, each proved once for the whole library.
//!
//! Integer laws are stated at the widest width of each family: every
//! narrower constant or observation widens losslessly into `i128` or `u128`,
//! so instantiating these lemmas with the widened value gives the law for
//! every width.
use vstd::prelude::*;
use crate::boolean::bool_matches;
use crate::character::char_matches;
use crate::observe::{IntObserved, int_matches};

verus! {

/// Round trip, signed family: the value the emitter of a signed constant
/// produces, observed back as a signed integer, always validates.
pub proof fn lemma_round_trip_signed(v: i128)
    ensures
        int_matches(v as int, IntObserved::Signed(v)),
{
}

/// Round trip, unsigned family: the value the emitter of an unsigned
/// constant produces, observed back as an unsigned integer, always
/// validates.
pub proof fn lemma_round_trip_unsigned(v: u128)
    ensures
        int_matches(v as int, IntObserved::Unsigned(v)),
{
}

/// Round trip, boolean: the emitted boolean always validates.
pub proof fn lemma_round_trip_bool(v: bool)
    ensures
        bool_matches(v, v),
{
}

/// Round trip, character: the emitted character always validates.
pub proof fn lemma_round_trip_char(v: char)
    ensures
        char_matches(v, v),
{
}

/// Cross-representation equality: whether an observation matches a constant
/// depends only on its sign and magnitude, never on the width or signedness
/// it arrived in.
pub proof fn lemma_cross_representation(constant: int, a: IntObserved, b: IntObserved)
    requires
        a.as_int() == b.as_int(),
    ensures
        int_matches(constant, a) == int_matches(constant, b),
{
}

/// A negative observation never matches an unsigned constant.
pub proof fn lemma_negative_never_matches_unsigned(constant: u128, v: i128)
    requires
        v < 0,
    ensures
        !int_matches(constant as int, IntObserved::Signed(v)),
{
}

/// An unsigned observation beyond the signed range never matches a signed
/// constant: the classification is exact, with no truncation.
pub proof fn lemma_large_unsigned_never_matches_signed(constant: i128, v: u128)
    requires
        v > i128::MAX,
    ensures
        !int_matches(constant as int, IntObserved::Unsigned(v)),
{
}

/// An observation of a different magnitude never matches, whatever its
/// representation.
pub proof fn lemma_magnitude_mismatch(constant: int, obs: IntObserved)
    requires
        obs.as_int() != constant,
    ensures
        !int_matches(constant, obs),
{
}

} // verus!
