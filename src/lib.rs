//! Soil water retention and unsaturated hydraulic conductivity after
//! Van Genuchten (1980), with the Mualem conductivity closure.
//!
//! Every physical quantity is carried as the bit pattern of an IEEE 754
//! binary64 number. The library decides everything that is a matter of
//! classification and ordering (parameter validity, the cross-parameter
//! invariant of a model, which branch of a piecewise curve applies, whether a
//! water content can be inverted) and proves it against the bit-level model in
//! [`binary64`]. The power-law formulas themselves are left to the caller's
//! floating-point arithmetic.

pub mod binary64;
pub mod errors;
pub mod models;
pub mod traits;
