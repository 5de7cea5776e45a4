//! Mirror symmetry of two-body motion.
//!
//! Two bodies of equal radius that sit at opposite points with opposite
//! velocities stay that way under leapfrog steps: every rounding in the
//! arithmetic is odd, so the two bodies receive exactly opposite kicks and
//! drifts. Their total momentum is therefore exactly zero at every step.

use crate::scalar::{fx_mul, lemma_fx_div_odd, SCALE};
use crate::simulation::{
    accel_on, accel_partial, after_steps, drift_all, initial_state, kick_all, leapfrog, pull,
    spec_step, BodyModel, Preset, SimulationModel,
};
use crate::vec3::{
    lemma_length_even, lemma_scale_odd, v3_length, v3_neg, v3_scale, v3_sub, v3_zero, Vec3Model,
};
use vstd::prelude::*;

verus! {

/// Two bodies of equal radius at opposite positions with opposite velocities.
pub open spec fn mirrored(bodies: Seq<BodyModel>) -> bool {
    &&& bodies.len() == 2
    &&& bodies[1].position == v3_neg(bodies[0].position)
    &&& bodies[1].velocity == v3_neg(bodies[0].velocity)
    &&& bodies[1].rs == bodies[0].rs
}

/// The sum over the first `n` bodies of radius times velocity: twice their
/// total momentum, since a body's mass is half its Schwarzschild radius.
pub open spec fn momentum_sum(bodies: Seq<BodyModel>, n: int) -> Vec3Model
    decreases n,
{
    if n <= 0 {
        v3_zero()
    } else {
        let rest = momentum_sum(bodies, n - 1);
        let b = bodies[n - 1];
        Vec3Model {
            x: rest.x + b.rs * b.velocity.x,
            y: rest.y + b.rs * b.velocity.y,
            z: rest.z + b.rs * b.velocity.z,
        }
    }
}

/// Twice the total momentum of all the bodies.
pub open spec fn total_momentum(bodies: Seq<BodyModel>) -> Vec3Model {
    momentum_sum(bodies, bodies.len() as int)
}

/// The pull toward a source reverses when the offset to it reverses.
pub proof fn lemma_pull_odd(delta: Vec3Model, r: int, rs: int)
    ensures
        pull(v3_neg(delta), r, rs) == v3_neg(pull(delta, r, rs)),
{
    let magnitude = crate::scalar::fx_div(rs, fx_mul(fx_mul(2 * SCALE, r), r));
    lemma_scale_odd(delta, magnitude);
    lemma_scale_odd(v3_scale(delta, magnitude), r);
}

/// In a mirrored pair the two bodies are accelerated in exactly opposite
/// directions.
pub proof fn lemma_mirrored_accelerations(bodies: Seq<BodyModel>)
    requires
        mirrored(bodies),
    ensures
        accel_on(bodies, 1) == v3_neg(accel_on(bodies, 0)),
{
    reveal_with_fuel(accel_partial, 3);
    let toward_second = v3_sub(bodies[1].position, bodies[0].position);
    let toward_first = v3_sub(bodies[0].position, bodies[1].position);
    assert(toward_first == v3_neg(toward_second));
    lemma_length_even(toward_second);
    lemma_pull_odd(toward_second, v3_length(toward_second), bodies[0].rs);
}

/// A half kick keeps a mirrored pair mirrored.
pub proof fn lemma_kick_keeps_mirror(bodies: Seq<BodyModel>, dt: int)
    requires
        mirrored(bodies),
    ensures
        mirrored(kick_all(bodies, dt)),
{
    lemma_mirrored_accelerations(bodies);
    let a = accel_on(bodies, 0);
    lemma_scale_odd(a, dt);
    lemma_scale_odd(v3_scale(a, dt), SCALE / 2);
}

/// A drift keeps a mirrored pair mirrored.
pub proof fn lemma_drift_keeps_mirror(bodies: Seq<BodyModel>, dt: int)
    requires
        mirrored(bodies),
    ensures
        mirrored(drift_all(bodies, dt)),
{
    lemma_scale_odd(bodies[0].velocity, dt);
}

/// A leapfrog step keeps a mirrored pair mirrored.
pub proof fn lemma_leapfrog_keeps_mirror(bodies: Seq<BodyModel>, dt: int)
    requires
        mirrored(bodies),
    ensures
        mirrored(leapfrog(bodies, dt)),
{
    lemma_kick_keeps_mirror(bodies, dt);
    lemma_drift_keeps_mirror(kick_all(bodies, dt), dt);
    lemma_kick_keeps_mirror(drift_all(kick_all(bodies, dt), dt), dt);
}

/// Any number of steps keeps a mirrored pair mirrored.
pub proof fn lemma_steps_keep_mirror(s: SimulationModel, dts: Seq<int>)
    requires
        mirrored(s.bodies),
    ensures
        mirrored(after_steps(s, dts).bodies),
    decreases dts.len(),
{
    if dts.len() > 0 {
        lemma_steps_keep_mirror(s, dts.drop_last());
        let before = after_steps(s, dts.drop_last());
        if !(before.paused || before.bodies.len() <= 1) {
            lemma_leapfrog_keeps_mirror(before.bodies, fx_mul(dts.last(), before.speed));
        }
        assert(after_steps(s, dts) == spec_step(before, dts.last()));
    }
}

/// The total momentum of a mirrored pair is exactly zero.
pub proof fn lemma_mirrored_momentum_is_zero(bodies: Seq<BodyModel>)
    requires
        mirrored(bodies),
    ensures
        total_momentum(bodies) == v3_zero(),
{
    reveal_with_fuel(momentum_sum, 3);
    let rs = bodies[0].rs;
    let v = bodies[0].velocity;
    assert(rs * v.x + rs * (-v.x) == 0) by (nonlinear_arith);
    assert(rs * v.y + rs * (-v.y) == 0) by (nonlinear_arith);
    assert(rs * v.z + rs * (-v.z) == 0) by (nonlinear_arith);
}

/// The binary preset starts as a mirrored pair.
pub proof fn lemma_binary_preset_is_mirrored()
    ensures
        mirrored(initial_state(Preset::Binary).bodies),
{
    lemma_fx_div_odd(6 * SCALE, 2 * SCALE);
}

/// The total momentum of the binary preset is exactly zero after any
/// number of steps with any time steps.
pub proof fn lemma_binary_momentum_stays_zero(dts: Seq<int>)
    ensures
        total_momentum(after_steps(initial_state(Preset::Binary), dts).bodies) == v3_zero(),
{
    lemma_binary_preset_is_mirrored();
    lemma_steps_keep_mirror(initial_state(Preset::Binary), dts);
    lemma_mirrored_momentum_is_zero(after_steps(initial_state(Preset::Binary), dts).bodies);
}

} // verus!
