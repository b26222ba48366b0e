//! Observed integer values, in the representation the decoder delivered them.
use vstd::prelude::*;

verus! {

/// One observed integer value. A decoder may present an integer in any width
/// and either signedness; every signed width widens losslessly into `i128`
/// and every unsigned width into `u128`, so these two variants cover them all.
#[derive(Clone, Copy, Debug)]
pub enum IntObserved {
    /// A value observed in one of the signed integer representations.
    Signed(i128),
    /// A value observed in one of the unsigned integer representations.
    Unsigned(u128),
}

impl IntObserved {
    /// The observed magnitude with its sign, independent of representation.
    pub open spec fn as_int(self) -> int {
        match self {
            IntObserved::Signed(v) => v as int,
            IntObserved::Unsigned(v) => v as int,
        }
    }
}

/// Whether an observed integer equals a constant, compared as unbounded
/// integers: representation never matters, only sign and magnitude.
pub open spec fn int_matches(constant: int, obs: IntObserved) -> bool {
    obs.as_int() == constant
}

} // verus!
