//! The interface shared by the validated parameters.
use vstd::prelude::*;

verus! {

/// A quantity whose values are restricted by a constraint of its own kind.
/// Values are binary64 bit patterns.
pub trait RestrictedParameter: Sized {
    /// The constraint.
    spec fn valid(value: u64) -> bool;

    /// Decides the constraint.
    fn is_valid(value: u64) -> (r: bool)
        ensures
            r == Self::valid(value),
    ;
}

} // verus!
