//! The Schwarzschild metric of a single non-rotating mass:
//!
//! ds^2 = -(1 - rs/r) dt^2 + (1 - rs/r)^-1 dr^2 + r^2 (dtheta^2 + sin^2 theta dphi^2)

use crate::isqrt::lemma_floor_sqrt_is;
use crate::scalar::{fx_div, fx_mul, fx_sqrt, lemma_quotient_is, Scalar, SCALE};
use vstd::prelude::*;

verus! {

/// Three halves of the square root of three: the critical impact parameter
/// of a unit Schwarzschild radius.
pub open spec fn critical_coefficient() -> int {
    fx_div(fx_mul(3 * SCALE, fx_sqrt(3 * SCALE)), 2 * SCALE)
}

/// The impact parameter below which a lone mass of radius `rs` captures a
/// ray: `(3 sqrt(3) / 2) rs`.
pub open spec fn critical_impact_parameter(rs: int) -> int {
    fx_mul(critical_coefficient(), rs)
}

/// The radius at which light can orbit a lone mass of radius `rs`: `1.5 rs`.
pub open spec fn photon_sphere_radius(rs: int) -> int {
    fx_mul(1_500_000_000, rs)
}

/// The innermost stable circular orbit of a lone mass of radius `rs`: `3 rs`.
pub open spec fn isco_radius(rs: int) -> int {
    fx_mul(3 * SCALE, rs)
}

/// The critical coefficient is 2.598076210 to nine places.
pub proof fn lemma_critical_coefficient_value()
    ensures
        critical_coefficient() == 2_598_076_210,
{
    assert(fx_sqrt(3 * SCALE) == 1_732_050_807) by {
        lemma_floor_sqrt_is(3 * SCALE * SCALE, 1_732_050_807);
    }
    lemma_quotient_is((3 * SCALE) * 1_732_050_807, SCALE as int, 5_196_152_421);
    lemma_quotient_is(5_196_152_421 * SCALE, 2 * SCALE, 2_598_076_210);
}

/// Parameters of the metric.
#[derive(Clone, Copy, Debug, PartialEq, Eq)]
pub struct SchwarzschildParams {
    /// Schwarzschild radius `rs = 2GM/c^2`; one in natural units.
    pub rs: Scalar,
}

impl Default for SchwarzschildParams {
    fn default() -> (p: SchwarzschildParams)
        ensures
            p.rs@ == SCALE,
    {
        SchwarzschildParams { rs: Scalar::one() }
    }
}

impl SchwarzschildParams {
    /// Critical impact parameter: `3 sqrt(3) / 2 * rs`.
    pub fn critical_impact_parameter(&self) -> (b: Scalar)
        ensures
            b@ == critical_impact_parameter(self.rs@),
    {
        proof {
            lemma_critical_coefficient_value();
        }
        Scalar::from_raw(2_598_076_210).mul(self.rs)
    }

    /// Photon sphere radius: `3/2 * rs`.
    pub fn photon_sphere_radius(&self) -> (r: Scalar)
        ensures
            r@ == photon_sphere_radius(self.rs@),
    {
        Scalar::from_milli(1500).mul(self.rs)
    }

    /// Innermost stable circular orbit: `3 * rs`.
    pub fn isco_radius(&self) -> (r: Scalar)
        ensures
            r@ == isco_radius(self.rs@),
    {
        Scalar::from_int(3).mul(self.rs)
    }
}

} // verus!
