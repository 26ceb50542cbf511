//! Errors of parameter validation and model construction.
use vstd::prelude::*;

verus! {

/// A parameter value that its kind's constraint rejects, carried verbatim
/// as its binary64 bit pattern.
#[derive(Debug, Clone, Copy, PartialEq, Eq, Structural)]
pub enum InvalidParam {
    /// The scale parameter alpha must be normal and greater than zero.
    BadVgAlpha(u64),
    /// The shape parameter n must be normal and greater than one.
    BadVgN(u64),
    /// A water content must lie in [0, 1] and be neither NaN nor subnormal.
    BadVgTheta(u64),
    /// The saturated conductivity must be finite, at least zero and not subnormal.
    BadVgMKSat(u64),
}

/// Parameters that are valid one by one but not together.
#[derive(Debug, Clone, Copy, PartialEq, Eq, Structural)]
pub enum InvalidSoilModel {
    /// The residual water content (first) is not below the saturated one (second).
    ThetaDisagreement(u64, u64),
}

} // verus!
