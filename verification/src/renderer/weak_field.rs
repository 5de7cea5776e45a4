//! The near-straight-line limit of the ray marcher.
//!
//! A ray that keeps well clear of a lone mass is bent only a little: at
//! distance at least `R` the pull is at most `rs / (2 R^2)`, so that each
//! step turns the direction by at most that much times the step length.
//! Such a ray is never captured; it escapes, with a direction that differs
//! from the one it started with by at most the sum of these turns.

use crate::renderer::tracer::{
    advance, deflection, first_captor, first_disk, hits_disk, inside_horizon, trace_from,
    RayModel, TraceModel,
};
use crate::scalar::{
    fx_add, fx_div, fx_mul, lemma_fx_div_magnitude, lemma_fx_div_monotone,
    lemma_fx_mul_magnitude, lemma_fx_mul_monotone, limit, magnitude, SCALE,
};
use crate::simulation::{pull, GpuBodyModel};
use crate::vec3::{
    lemma_component_within_length, v3_in_range, v3_length, v3_sub, Vec3Model,
};
use vstd::arithmetic::div_mod::{
    lemma_div_by_multiple, lemma_div_is_ordered, lemma_fundamental_div_mod,
};
use vstd::arithmetic::mul::lemma_mul_inequality;
use vstd::prelude::*;

verus! {

/// The largest pull of a mass of radius `rs` on anything at least
/// `clearance` away: `rs / (2 clearance^2)`.
pub open spec fn pull_bound(rs: int, clearance: int) -> int {
    fx_div(rs, fx_mul(fx_mul(2 * SCALE, clearance), clearance))
}

/// The most that one step of length `h` turns a component of the direction
/// of a ray at least `clearance` away from a mass of radius `rs`.
pub open spec fn turn_bound(rs: int, clearance: int, h: int) -> int {
    fx_mul(pull_bound(rs, clearance), magnitude(h))
}

/// Whether each component of `a` is within `tolerance` of that of `b`.
pub open spec fn within(a: Vec3Model, b: Vec3Model, tolerance: int) -> bool {
    &&& magnitude(a.x - b.x) <= tolerance
    &&& magnitude(a.y - b.y) <= tolerance
    &&& magnitude(a.z - b.z) <= tolerance
}

/// Whether a ray stays at least `clearance` away from the first body, now
/// and after each of its next `steps` steps, and, where disks are drawn,
/// crosses that body's disk on none of them.
pub open spec fn keeps_clear(
    ray: RayModel,
    bodies: Seq<GpuBodyModel>,
    steps: nat,
    h: int,
    disk_enabled: bool,
    clearance: int,
) -> bool
    decreases steps,
{
    let next = advance(ray, bodies, 1, h);
    &&& v3_length(v3_sub(bodies[0].position, ray.position)) >= clearance
    &&& steps > 0 ==> {
        &&& disk_enabled ==> !hits_disk(ray.position, next.position, bodies[0])
        &&& keeps_clear(next, bodies, (steps - 1) as nat, h, disk_enabled, clearance)
    }
}

/// Each component of the pull along `delta * magnitude / r` is no larger
/// than `magnitude`, where no component of `delta` is larger than `r`.
proof fn lemma_unit_vector_times(d: int, m: int, r: int)
    requires
        magnitude(d) <= r,
        0 < r,
        0 <= m <= limit(),
    ensures
        magnitude(fx_div(fx_mul(d, m), r)) <= m,
{
    lemma_fx_mul_magnitude(d, m);
    lemma_fx_div_magnitude(fx_mul(d, m), r);
    let exact = (magnitude(d) * m) / (SCALE as int);
    let rounded = magnitude(fx_mul(d, m));
    assert(rounded <= exact);
    lemma_fundamental_div_mod(magnitude(d) * m, SCALE as int);
    assert(exact * SCALE <= magnitude(d) * m) by {
        assert(SCALE * exact == exact * SCALE) by (nonlinear_arith);
    }
    lemma_mul_inequality(magnitude(d), r, m);
    assert(rounded * SCALE <= exact * SCALE) by (nonlinear_arith)
        requires
            rounded <= exact,
    ;
    assert(r * m == m * r) by (nonlinear_arith);
    lemma_div_is_ordered(rounded * SCALE, m * r, r);
    lemma_div_by_multiple(m, r);
}

/// At distance at least `clearance`, no component of the pull of a mass is
/// larger than `pull_bound`.
pub proof fn lemma_pull_is_bounded(delta: Vec3Model, rs: int, clearance: int)
    requires
        v3_in_range(delta),
        0 <= rs,
        0 < clearance <= v3_length(delta),
    ensures
        within(
            pull(delta, v3_length(delta), rs),
            Vec3Model { x: 0, y: 0, z: 0 },
            pull_bound(rs, clearance),
        ),
{
    let r = v3_length(delta);
    let m = fx_div(rs, fx_mul(fx_mul(2 * SCALE, r), r));
    lemma_fx_mul_monotone(2 * SCALE, clearance, 2 * SCALE, r);
    lemma_fx_mul_monotone(fx_mul(2 * SCALE, clearance), clearance, fx_mul(2 * SCALE, r), r);
    lemma_fx_div_monotone(
        rs,
        fx_mul(fx_mul(2 * SCALE, r), r),
        rs,
        fx_mul(fx_mul(2 * SCALE, clearance), clearance),
    );
    lemma_component_within_length(delta);
    lemma_unit_vector_times(delta.x, m, r);
    lemma_unit_vector_times(delta.y, m, r);
    lemma_unit_vector_times(delta.z, m, r);
}

/// One step turns each component of the direction of a ray at least
/// `clearance` away from a lone mass by no more than `turn_bound`.
pub proof fn lemma_step_turns_little(
    ray: RayModel,
    bodies: Seq<GpuBodyModel>,
    h: int,
    clearance: int,
)
    requires
        bodies.len() >= 1,
        v3_in_range(ray.direction),
        0 <= bodies[0].rs,
        0 < clearance <= v3_length(v3_sub(bodies[0].position, ray.position)),
    ensures
        v3_in_range(advance(ray, bodies, 1, h).direction),
        within(
            advance(ray, bodies, 1, h).direction,
            ray.direction,
            turn_bound(bodies[0].rs, clearance, h),
        ),
{
    reveal_with_fuel(deflection, 2);
    let delta = v3_sub(bodies[0].position, ray.position);
    let p = pull(delta, v3_length(delta), bodies[0].rs);
    let bound = pull_bound(bodies[0].rs, clearance);
    lemma_pull_is_bounded(delta, bodies[0].rs, clearance);
    assert(deflection(ray.position, bodies, 1) == p);
    lemma_turn(ray.direction.x, p.x, h, bound);
    lemma_turn(ray.direction.y, p.y, h, bound);
    lemma_turn(ray.direction.z, p.z, h, bound);
}

proof fn lemma_turn(d: int, p: int, h: int, bound: int)
    requires
        -limit() <= d <= limit(),
        magnitude(p) <= bound,
    ensures
        magnitude(fx_add(d, fx_mul(p, h)) - d) <= fx_mul(bound, magnitude(h)),
{
    lemma_fx_mul_magnitude(p, h);
    lemma_fx_mul_monotone(magnitude(p), magnitude(h), bound, magnitude(h));
    lemma_fx_mul_magnitude(magnitude(p), magnitude(h));
    assert(magnitude(magnitude(p)) == magnitude(p) && magnitude(magnitude(h)) == magnitude(h));
}

/// A ray that keeps at least `clearance` away from a lone mass, where
/// `clearance` is no less than the radius of the mass, and crosses no disk,
/// escapes; and each component of its final direction differs from the
/// initial one by at most `steps` times the bound on the turn of one step.
pub proof fn lemma_clear_ray_escapes_nearly_straight(
    ray: RayModel,
    bodies: Seq<GpuBodyModel>,
    steps: nat,
    h: int,
    disk_enabled: bool,
    clearance: int,
)
    requires
        bodies.len() >= 1,
        v3_in_range(ray.direction),
        0 <= bodies[0].rs <= clearance,
        0 < clearance,
        keeps_clear(ray, bodies, steps, h, disk_enabled, clearance),
    ensures
        trace_from(ray, bodies, 1, steps, h, disk_enabled) matches TraceModel::Escaped(d)
            && within(d, ray.direction, steps * turn_bound(bodies[0].rs, clearance, h)),
    decreases steps,
{
    let bound = turn_bound(bodies[0].rs, clearance, h);
    if steps == 0 {
        assert(0 * bound == 0) by (nonlinear_arith);
    } else {
        reveal_with_fuel(keeps_clear, 2);
        let next = advance(ray, bodies, 1, h);
        lemma_step_turns_little(ray, bodies, h, clearance);
        assert(first_captor(next.position, bodies, 0, 1) is None) by {
            reveal_with_fuel(first_captor, 2);
            assert(!inside_horizon(next.position, bodies[0]));
        }
        assert(disk_enabled ==> first_disk(ray.position, next.position, bodies, 0, 1) is None) by {
            reveal_with_fuel(first_disk, 2);
        }
        lemma_clear_ray_escapes_nearly_straight(
            next,
            bodies,
            (steps - 1) as nat,
            h,
            disk_enabled,
            clearance,
        );
        assert(steps * bound == (steps - 1) * bound + bound) by (nonlinear_arith);
        lemma_fx_mul_magnitude(pull_bound(bodies[0].rs, clearance), magnitude(h));
    }
}

} // verus!
