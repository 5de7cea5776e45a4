//! Three-component vectors over fixed-point scalars.

use crate::isqrt::{floor_sqrt, isqrt_u128, lemma_floor_sqrt_exists};
use crate::scalar::{
    clamp, fx_add, fx_div, fx_mul, fx_sub, lemma_fx_div_odd, lemma_fx_mul_odd, limit, magnitude,
    Scalar,
};
use vstd::prelude::*;

verus! {

/// The mathematical content of a [`Vec3`]: three raw fixed-point numbers.
pub struct Vec3Model {
    pub x: int,
    pub y: int,
    pub z: int,
}

/// Component-wise saturating sum.
pub open spec fn v3_add(a: Vec3Model, b: Vec3Model) -> Vec3Model {
    Vec3Model { x: fx_add(a.x, b.x), y: fx_add(a.y, b.y), z: fx_add(a.z, b.z) }
}

/// Component-wise saturating difference.
pub open spec fn v3_sub(a: Vec3Model, b: Vec3Model) -> Vec3Model {
    Vec3Model { x: fx_sub(a.x, b.x), y: fx_sub(a.y, b.y), z: fx_sub(a.z, b.z) }
}

/// Each component multiplied by the fixed-point number `k`.
pub open spec fn v3_scale(v: Vec3Model, k: int) -> Vec3Model {
    Vec3Model { x: fx_mul(v.x, k), y: fx_mul(v.y, k), z: fx_mul(v.z, k) }
}

/// Each component divided by the fixed-point number `k`.
pub open spec fn v3_div(v: Vec3Model, k: int) -> Vec3Model {
    Vec3Model { x: fx_div(v.x, k), y: fx_div(v.y, k), z: fx_div(v.z, k) }
}

/// The vector pointing the other way.
pub open spec fn v3_neg(v: Vec3Model) -> Vec3Model {
    Vec3Model { x: -v.x, y: -v.y, z: -v.z }
}

/// The zero vector.
pub open spec fn v3_zero() -> Vec3Model {
    Vec3Model { x: 0, y: 0, z: 0 }
}

/// The Euclidean length, rounded down to a raw unit and saturated.
pub open spec fn v3_length(v: Vec3Model) -> int {
    clamp(floor_sqrt(v.x * v.x + v.y * v.y + v.z * v.z))
}

/// The cross product, each product rounded before the subtraction.
pub open spec fn v3_cross(a: Vec3Model, b: Vec3Model) -> Vec3Model {
    Vec3Model {
        x: fx_sub(fx_mul(a.y, b.z), fx_mul(a.z, b.y)),
        y: fx_sub(fx_mul(a.z, b.x), fx_mul(a.x, b.z)),
        z: fx_sub(fx_mul(a.x, b.y), fx_mul(a.y, b.x)),
    }
}

/// The squared length as a fixed-point number: the saturating sum of the
/// rounded squares of the components.
pub open spec fn v3_length_squared(v: Vec3Model) -> int {
    fx_add(fx_add(fx_mul(v.x, v.x), fx_mul(v.y, v.y)), fx_mul(v.z, v.z))
}

/// The vector divided by its own length.
pub open spec fn v3_normalize(v: Vec3Model) -> Vec3Model {
    v3_div(v, v3_length(v))
}

/// Every component lies in the representable range.
pub open spec fn v3_in_range(v: Vec3Model) -> bool {
    &&& -limit() <= v.x <= limit()
    &&& -limit() <= v.y <= limit()
    &&& -limit() <= v.z <= limit()
}

/// No component of a representable vector is larger than its length.
pub proof fn lemma_component_within_length(v: Vec3Model)
    requires
        v3_in_range(v),
    ensures
        magnitude(v.x) <= v3_length(v),
        magnitude(v.y) <= v3_length(v),
        magnitude(v.z) <= v3_length(v),
{
    let n = v.x * v.x + v.y * v.y + v.z * v.z;
    assert(v.x * v.x == magnitude(v.x) * magnitude(v.x) && v.y * v.y == magnitude(v.y)
        * magnitude(v.y) && v.z * v.z == magnitude(v.z) * magnitude(v.z)) by (nonlinear_arith);
    assert(0 <= v.x * v.x && 0 <= v.y * v.y && 0 <= v.z * v.z) by (nonlinear_arith);
    lemma_floor_sqrt_exists(n);
    let r = floor_sqrt(n);
    if r < magnitude(v.x) {
        lemma_square_monotone(r + 1, magnitude(v.x));
    }
    if r < magnitude(v.y) {
        lemma_square_monotone(r + 1, magnitude(v.y));
    }
    if r < magnitude(v.z) {
        lemma_square_monotone(r + 1, magnitude(v.z));
    }
}

proof fn lemma_square_monotone(a: int, b: int)
    by (nonlinear_arith)
    requires
        0 <= a <= b,
    ensures
        a * a <= b * b,
{
}

/// A vector and its opposite have the same length.
pub proof fn lemma_length_even(v: Vec3Model)
    ensures
        v3_length(v3_neg(v)) == v3_length(v),
{
    assert((-v.x) * (-v.x) == v.x * v.x) by (nonlinear_arith);
    assert((-v.y) * (-v.y) == v.y * v.y) by (nonlinear_arith);
    assert((-v.z) * (-v.z) == v.z * v.z) by (nonlinear_arith);
}

/// Scaling and dividing commute with reversing the vector.
pub proof fn lemma_scale_odd(v: Vec3Model, k: int)
    ensures
        v3_scale(v3_neg(v), k) == v3_neg(v3_scale(v, k)),
        v3_div(v3_neg(v), k) == v3_neg(v3_div(v, k)),
{
    lemma_fx_mul_odd(v.x, k);
    lemma_fx_mul_odd(v.y, k);
    lemma_fx_mul_odd(v.z, k);
    lemma_fx_div_odd(v.x, k);
    lemma_fx_div_odd(v.y, k);
    lemma_fx_div_odd(v.z, k);
}

/// A point or direction in space.
#[derive(Clone, Copy, Debug, PartialEq, Eq)]
pub struct Vec3 {
    pub x: Scalar,
    pub y: Scalar,
    pub z: Scalar,
}

impl View for Vec3 {
    type V = Vec3Model;

    open spec fn view(&self) -> Vec3Model {
        Vec3Model { x: self.x@, y: self.y@, z: self.z@ }
    }
}

fn square_of(s: Scalar) -> (r: u128)
    ensures
        r as int == s@ * s@,
        r <= limit() * limit(),
{
    let raw: i64 = s.raw();
    let m: u128 = if raw < 0 {
        (-raw) as u128
    } else {
        raw as u128
    };
    assert(m * m == raw * raw && m * m <= limit() * limit()) by (nonlinear_arith)
        requires
            m == raw || m == -raw,
            0 <= m <= limit(),
    ;
    m * m
}

impl Vec3 {
    /// The vector with the given components.
    pub fn new(x: Scalar, y: Scalar, z: Scalar) -> (r: Vec3)
        ensures
            r == (Vec3 { x, y, z }),
    {
        Vec3 { x, y, z }
    }

    /// The zero vector.
    pub fn zero() -> (r: Vec3)
        ensures
            r@ == v3_zero(),
    {
        Vec3 { x: Scalar::zero(), y: Scalar::zero(), z: Scalar::zero() }
    }

    /// Component-wise saturating sum.
    pub fn add(self, rhs: Vec3) -> (r: Vec3)
        ensures
            r@ == v3_add(self@, rhs@),
    {
        Vec3 { x: self.x.add(rhs.x), y: self.y.add(rhs.y), z: self.z.add(rhs.z) }
    }

    /// Component-wise saturating difference.
    pub fn sub(self, rhs: Vec3) -> (r: Vec3)
        ensures
            r@ == v3_sub(self@, rhs@),
    {
        Vec3 { x: self.x.sub(rhs.x), y: self.y.sub(rhs.y), z: self.z.sub(rhs.z) }
    }

    /// Each component multiplied by `k`.
    pub fn scale(self, k: Scalar) -> (r: Vec3)
        ensures
            r@ == v3_scale(self@, k@),
    {
        Vec3 { x: self.x.mul(k), y: self.y.mul(k), z: self.z.mul(k) }
    }

    /// Each component divided by `k`.
    pub fn div(self, k: Scalar) -> (r: Vec3)
        ensures
            r@ == v3_div(self@, k@),
    {
        Vec3 { x: self.x.div(k), y: self.y.div(k), z: self.z.div(k) }
    }

    /// The Euclidean length, rounded down to a raw unit and saturated.
    pub fn length(self) -> (r: Scalar)
        ensures
            r@ == v3_length(self@),
    {
        let xx: u128 = square_of(self.x);
        let yy: u128 = square_of(self.y);
        let zz: u128 = square_of(self.z);
        assert(3 * (limit() * limit()) <= u128::MAX) by (nonlinear_arith);
        let root: u64 = isqrt_u128(xx + yy + zz);
        if root > i64::MAX as u64 {
            Scalar::from_raw(i64::MAX)
        } else {
            Scalar::from_raw(root as i64)
        }
    }

    /// The cross product.
    pub fn cross(self, rhs: Vec3) -> (r: Vec3)
        ensures
            r@ == v3_cross(self@, rhs@),
    {
        Vec3 {
            x: self.y.mul(rhs.z).sub(self.z.mul(rhs.y)),
            y: self.z.mul(rhs.x).sub(self.x.mul(rhs.z)),
            z: self.x.mul(rhs.y).sub(self.y.mul(rhs.x)),
        }
    }

    /// The squared length as a fixed-point number.
    pub fn length_squared(self) -> (r: Scalar)
        ensures
            r@ == v3_length_squared(self@),
    {
        self.x.mul(self.x).add(self.y.mul(self.y)).add(self.z.mul(self.z))
    }

    /// The vector divided by its own length.
    pub fn normalize(self) -> (r: Vec3)
        ensures
            r@ == v3_normalize(self@),
    {
        let len: Scalar = self.length();
        self.div(len)
    }
}

} // verus!
