//! The Van Genuchten water-retention model and its parameters.
use vstd::prelude::*;

use crate::binary64::{self, le, lt, is_finite, is_nan, is_normal, is_subnormal, ONE, ZERO};
use crate::errors::{InvalidParam, InvalidSoilModel};
use crate::traits::RestrictedParameter;

verus! {

/// Alpha for sand (per MPa), from the supplement to doi.org/10.1111/pce.12852 via UNSODA.
pub const ALPHA_SAND: u64 = 0x4097_1e60_c49b_a5e3;

/// N for sand, from the same source.
pub const N_SAND: u64 = 0x4005_70a3_d70a_3d71;

/// Saturated water content of sand, from the same source.
pub const THETA_SAT_SAND: u64 = 0x3fdb_851e_b851_eb85;

/// Residual water content of sand, from the same source.
pub const THETA_RES_SAND: u64 = 0x3fa7_0a3d_70a3_d70a;

pub open spec fn alpha_valid(v: u64) -> bool {
    is_normal(v) && lt(ZERO, v)
}

pub open spec fn n_valid(v: u64) -> bool {
    is_normal(v) && lt(ONE, v)
}

pub open spec fn theta_valid(v: u64) -> bool {
    le(v, ONE) && le(ZERO, v) && is_finite(v) && !is_nan(v) && !is_subnormal(v)
}

/// The inverse air-entry scale alpha of the retention curve.
#[derive(Debug, Clone, Copy, PartialEq, Eq, Structural)]
pub struct Alpha {
    value: u64,
}

impl View for Alpha {
    type V = u64;

    closed spec fn view(&self) -> u64 {
        self.value
    }
}

impl RestrictedParameter for Alpha {
    open spec fn valid(value: u64) -> bool {
        alpha_valid(value)
    }

    fn is_valid(value: u64) -> (r: bool) {
        binary64::normal(value) && binary64::less_than(ZERO, value)
    }
}

impl Alpha {
    #[verifier::type_invariant]
    spec fn inv(&self) -> bool {
        alpha_valid(self.value)
    }

    /// Validates `value`; an invalid one comes back in the error.
    pub fn try_new(value: u64) -> (r: Result<Alpha, InvalidParam>)
        ensures
            r is Ok <==> alpha_valid(value),
            r matches Ok(p) ==> p@ == value,
            r matches Err(e) ==> e == InvalidParam::BadVgAlpha(value),
    {
        if Self::is_valid(value) {
            Ok(Alpha { value })
        } else {
            Err(InvalidParam::BadVgAlpha(value))
        }
    }

    pub fn get(&self) -> (r: u64)
        ensures
            r == self@,
            alpha_valid(r),
    {
        proof {
            use_type_invariant(self);
        }
        self.value
    }
}

impl Default for Alpha {
    /// The value for sand, validated like any other.
    fn default() -> (r: Alpha)
        ensures
            r@ == ALPHA_SAND,
    {
        assert(alpha_valid(ALPHA_SAND));
        Alpha::try_new(ALPHA_SAND).unwrap()
    }
}

/// The pore-size distribution parameter n of the retention curve.
#[derive(Debug, Clone, Copy, PartialEq, Eq, Structural)]
pub struct N {
    value: u64,
}

impl View for N {
    type V = u64;

    closed spec fn view(&self) -> u64 {
        self.value
    }
}

impl RestrictedParameter for N {
    open spec fn valid(value: u64) -> bool {
        n_valid(value)
    }

    fn is_valid(value: u64) -> (r: bool) {
        binary64::normal(value) && binary64::less_than(ONE, value)
    }
}

impl N {
    #[verifier::type_invariant]
    spec fn inv(&self) -> bool {
        n_valid(self.value)
    }

    /// Validates `value`; an invalid one comes back in the error.
    pub fn try_new(value: u64) -> (r: Result<N, InvalidParam>)
        ensures
            r is Ok <==> n_valid(value),
            r matches Ok(p) ==> p@ == value,
            r matches Err(e) ==> e == InvalidParam::BadVgN(value),
    {
        if Self::is_valid(value) {
            Ok(N { value })
        } else {
            Err(InvalidParam::BadVgN(value))
        }
    }

    pub fn get(&self) -> (r: u64)
        ensures
            r == self@,
            n_valid(r),
    {
        proof {
            use_type_invariant(self);
        }
        self.value
    }
}

impl Default for N {
    /// The value for sand, validated like any other.
    fn default() -> (r: N)
        ensures
            r@ == N_SAND,
    {
        assert(n_valid(N_SAND));
        N::try_new(N_SAND).unwrap()
    }
}

/// A volumetric water content: the saturated or the residual one of a
/// retention curve, or a content to invert.
#[derive(Debug, Clone, Copy, PartialEq, Eq, Structural)]
pub struct Theta {
    value: u64,
}

impl View for Theta {
    type V = u64;

    closed spec fn view(&self) -> u64 {
        self.value
    }
}

impl RestrictedParameter for Theta {
    open spec fn valid(value: u64) -> bool {
        theta_valid(value)
    }

    fn is_valid(value: u64) -> (r: bool) {
        binary64::less_or_equal(value, ONE) && binary64::less_or_equal(ZERO, value)
            && binary64::finite(value) && !binary64::nan(value) && !binary64::subnormal(value)
    }
}

impl Theta {
    #[verifier::type_invariant]
    spec fn inv(&self) -> bool {
        theta_valid(self.value)
    }

    /// Validates `value`; an invalid one comes back in the error.
    pub fn try_new(value: u64) -> (r: Result<Theta, InvalidParam>)
        ensures
            r is Ok <==> theta_valid(value),
            r matches Ok(p) ==> p@ == value,
            r matches Err(e) ==> e == InvalidParam::BadVgTheta(value),
    {
        if Self::is_valid(value) {
            Ok(Theta { value })
        } else {
            Err(InvalidParam::BadVgTheta(value))
        }
    }

    pub fn get(&self) -> (r: u64)
        ensures
            r == self@,
            theta_valid(r),
    {
        proof {
            use_type_invariant(self);
        }
        self.value
    }
}

impl Default for Theta {
    /// The saturated water content of sand, validated like any other. A
    /// residual content has to be made with `try_new`.
    fn default() -> (r: Theta)
        ensures
            r@ == THETA_SAT_SAND,
    {
        assert(theta_valid(THETA_SAT_SAND));
        Theta::try_new(THETA_SAT_SAND).unwrap()
    }
}

/// The Van Genuchten water-retention curve, given by alpha, n, the
/// saturated water content and the residual one, the last strictly below
/// the third.
#[derive(Debug, Clone, Copy, PartialEq, Eq, Structural)]
pub struct VanGenuchten {
    a: Alpha,
    n: N,
    ts: Theta,
    tr: Theta,
}

impl VanGenuchten {
    #[verifier::type_invariant]
    spec fn inv(&self) -> bool {
        lt(self.tr@, self.ts@)
    }

    pub closed spec fn alpha_value(&self) -> u64 {
        self.a@
    }

    pub closed spec fn n_value(&self) -> u64 {
        self.n@
    }

    pub closed spec fn theta_sat_value(&self) -> u64 {
        self.ts@
    }

    pub closed spec fn theta_res_value(&self) -> u64 {
        self.tr@
    }

    /// Assembles a curve; fails exactly when the residual water content is
    /// not below the saturated one.
    pub fn try_new(a: Alpha, n: N, ts: Theta, tr: Theta) -> (r: Result<VanGenuchten, InvalidSoilModel>)
        ensures
            r is Ok <==> lt(tr@, ts@),
            r matches Ok(m) ==> m.alpha_value() == a@ && m.n_value() == n@
                && m.theta_sat_value() == ts@ && m.theta_res_value() == tr@,
            r matches Err(e) ==> e == InvalidSoilModel::ThetaDisagreement(tr@, ts@),
    {
        if binary64::less_than(tr.get(), ts.get()) {
            Ok(VanGenuchten { a, n, ts, tr })
        } else {
            Err(InvalidSoilModel::ThetaDisagreement(tr.get(), ts.get()))
        }
    }

    pub fn alpha(&self) -> (r: Alpha)
        ensures
            r@ == self.alpha_value(),
    {
        self.a
    }

    pub fn n(&self) -> (r: N)
        ensures
            r@ == self.n_value(),
    {
        self.n
    }

    pub fn theta_sat(&self) -> (r: Theta)
        ensures
            r@ == self.theta_sat_value(),
            lt(self.theta_res_value(), r@),
    {
        proof {
            use_type_invariant(self);
        }
        self.ts
    }

    pub fn theta_res(&self) -> (r: Theta)
        ensures
            r@ == self.theta_res_value(),
            lt(r@, self.theta_sat_value()),
    {
        proof {
            use_type_invariant(self);
        }
        self.tr
    }

    /// The water content at potential `psi` where the curve does not apply:
    /// the curve covers the potentials `psi <= 0`, and at every other one
    /// (a positive pressure, or NaN) the soil holds its saturated content.
    /// `None` means that the curve is to be evaluated.
    pub fn saturated_content_at(&self, psi: u64) -> (r: Option<Theta>)
        ensures
            r is Some <==> !le(psi, ZERO),
            r matches Some(t) ==> t@ == self.theta_sat_value(),
    {
        if binary64::less_or_equal(psi, ZERO) {
            None
        } else {
            Some(self.ts)
        }
    }

    /// The water content `theta` as a valid input to the inversion of the
    /// curve: it must be a valid water content strictly between the residual
    /// and the saturated one, else it comes back in a water-content error.
    pub fn invertible_content(&self, theta: u64) -> (r: Result<Theta, InvalidParam>)
        ensures
            r is Ok <==> theta_valid(theta) && lt(self.theta_res_value(), theta)
                && lt(theta, self.theta_sat_value()),
            r matches Ok(t) ==> t@ == theta,
            r matches Err(e) ==> e == InvalidParam::BadVgTheta(theta),
    {
        let t = Theta::try_new(theta)?;
        if binary64::less_than(self.tr.get(), theta) && binary64::less_than(theta, self.ts.get()) {
            Ok(t)
        } else {
            Err(InvalidParam::BadVgTheta(theta))
        }
    }
}

impl Default for VanGenuchten {
    /// The curve of sand, built through the same checks as any other.
    fn default() -> (r: VanGenuchten)
        ensures
            r.alpha_value() == ALPHA_SAND,
            r.n_value() == N_SAND,
            r.theta_sat_value() == THETA_SAT_SAND,
            r.theta_res_value() == THETA_RES_SAND,
    {
        let a = Alpha::default();
        let n = N::default();
        let ts = Theta::default();
        assert(theta_valid(THETA_RES_SAND));
        let tr = Theta::try_new(THETA_RES_SAND).unwrap();
        assert(lt(THETA_RES_SAND, THETA_SAT_SAND));
        VanGenuchten::try_new(a, n, ts, tr).unwrap()
    }
}

} // verus!
