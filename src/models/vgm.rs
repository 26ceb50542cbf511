//! The Van Genuchten - Mualem model of unsaturated hydraulic conductivity.
use vstd::prelude::*;

use crate::binary64::{self, le, lt, is_finite, is_nan, is_subnormal, ZERO};
use crate::errors::InvalidParam;
use crate::models::vg::VanGenuchten;
use crate::traits::RestrictedParameter;

verus! {

/// The default saturated conductivity: one half.
pub const KSAT_DEFAULT: u64 = 0x3fe0_0000_0000_0000;

/// The default pore-connectivity exponent: one half, that is, the square
/// root of the effective saturation (see doi.org/10.2136/vzj2005.0005).
pub const L_DEFAULT: u64 = 0x3fe0_0000_0000_0000;

pub open spec fn ksat_valid(v: u64) -> bool {
    le(ZERO, v) && is_finite(v) && !is_subnormal(v) && !is_nan(v)
}

/// The saturated hydraulic conductivity.
#[derive(Debug, Clone, Copy, PartialEq, Eq, Structural)]
pub struct KSat {
    value: u64,
}

impl View for KSat {
    type V = u64;

    closed spec fn view(&self) -> u64 {
        self.value
    }
}

impl RestrictedParameter for KSat {
    open spec fn valid(value: u64) -> bool {
        ksat_valid(value)
    }

    fn is_valid(value: u64) -> (r: bool) {
        binary64::less_or_equal(ZERO, value) && binary64::finite(value)
            && !binary64::subnormal(value) && !binary64::nan(value)
    }
}

impl KSat {
    #[verifier::type_invariant]
    spec fn inv(&self) -> bool {
        ksat_valid(self.value)
    }

    /// Validates `value`; an invalid one comes back in the error.
    pub fn try_new(value: u64) -> (r: Result<KSat, InvalidParam>)
        ensures
            r is Ok <==> ksat_valid(value),
            r matches Ok(p) ==> p@ == value,
            r matches Err(e) ==> e == InvalidParam::BadVgMKSat(value),
    {
        if Self::is_valid(value) {
            Ok(KSat { value })
        } else {
            Err(InvalidParam::BadVgMKSat(value))
        }
    }

    pub fn get(&self) -> (r: u64)
        ensures
            r == self@,
            ksat_valid(r),
    {
        proof {
            use_type_invariant(self);
        }
        self.value
    }
}

impl Default for KSat {
    /// One half, validated like any other value.
    fn default() -> (r: KSat)
        ensures
            r@ == KSAT_DEFAULT,
    {
        assert(ksat_valid(KSAT_DEFAULT));
        KSat::try_new(KSAT_DEFAULT).unwrap()
    }
}

/// The pore-connectivity (tortuosity) exponent l of the Mualem closure.
/// Every value is accepted for now.
#[derive(Debug, Clone, Copy, PartialEq, Eq, Structural)]
pub struct L {
    value: u64,
}

impl View for L {
    type V = u64;

    closed spec fn view(&self) -> u64 {
        self.value
    }
}

impl RestrictedParameter for L {
    open spec fn valid(value: u64) -> bool {
        true
    }

    fn is_valid(value: u64) -> (r: bool) {
        true
    }
}

impl L {
    /// Validates `value`, which always succeeds.
    pub fn try_new(value: u64) -> (r: Result<L, InvalidParam>)
        ensures
            r is Ok,
            r matches Ok(p) ==> p@ == value,
    {
        if Self::is_valid(value) {
            Ok(L { value })
        } else {
            Err(InvalidParam::BadVgMKSat(value))
        }
    }

    pub fn get(&self) -> (r: u64)
        ensures
            r == self@,
    {
        self.value
    }
}

impl Default for L {
    /// One half.
    fn default() -> (r: L)
        ensures
            r@ == L_DEFAULT,
    {
        L::try_new(L_DEFAULT).unwrap()
    }
}

/// A retention curve together with the saturated conductivity and the pore
/// exponent of the Mualem closure.
#[derive(Debug, Clone, Copy, PartialEq, Eq, Structural)]
pub struct VanGenuchtenMualem {
    vg: VanGenuchten,
    ksat: KSat,
    l: L,
}

impl VanGenuchtenMualem {
    pub closed spec fn retention(&self) -> VanGenuchten {
        self.vg
    }

    pub closed spec fn ksat_value(&self) -> u64 {
        self.ksat@
    }

    pub closed spec fn l_value(&self) -> u64 {
        self.l@
    }

    /// Combines the parts; there is no constraint between them.
    pub fn new(vg: VanGenuchten, ksat: KSat, l: L) -> (r: VanGenuchtenMualem)
        ensures
            r.retention() == vg,
            r.ksat_value() == ksat@,
            r.l_value() == l@,
    {
        VanGenuchtenMualem { vg, ksat, l }
    }

    pub fn vg(&self) -> (r: VanGenuchten)
        ensures
            r == self.retention(),
    {
        self.vg
    }

    pub fn ksat(&self) -> (r: KSat)
        ensures
            r@ == self.ksat_value(),
    {
        self.ksat
    }

    pub fn l(&self) -> (r: L)
        ensures
            r@ == self.l_value(),
    {
        self.l
    }

    /// The conductivity at potential `psi` where the soil is saturated: at
    /// every positive potential it is the saturated conductivity. `None`
    /// means that the Mualem closure is to be evaluated.
    pub fn saturated_conductivity_at(&self, psi: u64) -> (r: Option<KSat>)
        ensures
            r is Some <==> lt(ZERO, psi),
            r matches Some(k) ==> k@ == self.ksat_value(),
    {
        if binary64::less_than(ZERO, psi) {
            Some(self.ksat)
        } else {
            None
        }
    }
}

impl Default for VanGenuchtenMualem {
    /// The curve of sand with the default conductivity parameters.
    fn default() -> (r: VanGenuchtenMualem)
        ensures
            r.retention().alpha_value() == crate::models::vg::ALPHA_SAND,
            r.retention().n_value() == crate::models::vg::N_SAND,
            r.retention().theta_sat_value() == crate::models::vg::THETA_SAT_SAND,
            r.retention().theta_res_value() == crate::models::vg::THETA_RES_SAND,
            r.ksat_value() == KSAT_DEFAULT,
            r.l_value() == L_DEFAULT,
    {
        VanGenuchtenMualem::new(VanGenuchten::default(), KSat::default(), L::default())
    }
}

} // verus!
