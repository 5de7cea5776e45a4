//! Orbital motion of a small set of gravitating bodies.
//!
//! Bodies attract one another with the weak-field acceleration
//! `rs / (2 r^2)` toward a body of Schwarzschild radius `rs` at distance
//! `r`, and are advanced by leapfrog (kick, drift, kick) steps.

use crate::scalar::{clamp, fx_add, fx_div, fx_mul, fx_neg, fx_sqrt, Scalar, SCALE};
use crate::vec3::{v3_add, v3_div, v3_length, v3_scale, v3_sub, v3_zero, Vec3, Vec3Model};
use vstd::prelude::*;

verus! {

/// The largest number of bodies a frame can carry.
pub const MAX_BODIES: usize = 8;

/// Pairs of bodies closer than this many raw units (one tenth) do not
/// attract each other.
pub const SINGULARITY_GUARD: i64 = 100_000_000;

/// A gravitating point mass with an accretion disk.
#[derive(Clone, Copy, Debug, PartialEq, Eq)]
pub struct Body {
    pub position: Vec3,
    pub velocity: Vec3,
    /// Schwarzschild radius.
    pub rs: Scalar,
    /// Inner disk radius as a multiple of `rs`.
    pub disk_inner_mult: Scalar,
    /// Outer disk radius as a multiple of `rs`.
    pub disk_outer_mult: Scalar,
}

/// The mathematical content of a [`Body`], in raw fixed-point units.
pub struct BodyModel {
    pub position: Vec3Model,
    pub velocity: Vec3Model,
    pub rs: int,
    pub disk_inner_mult: int,
    pub disk_outer_mult: int,
}

impl View for Body {
    type V = BodyModel;

    open spec fn view(&self) -> BodyModel {
        BodyModel {
            position: self.position@,
            velocity: self.velocity@,
            rs: self.rs@,
            disk_inner_mult: self.disk_inner_mult@,
            disk_outer_mult: self.disk_outer_mult@,
        }
    }
}

/// The models of a sequence of bodies, in order.
pub open spec fn models(bodies: Seq<Body>) -> Seq<BodyModel> {
    Seq::new(bodies.len(), |i: int| bodies[i]@)
}

/// The acceleration that a source of Schwarzschild radius `rs` exerts on a
/// test particle from which it is offset by `delta`, at distance `r`:
/// magnitude `rs / (2 r^2)` along `delta / r`.
pub open spec fn pull(delta: Vec3Model, r: int, rs: int) -> Vec3Model {
    let magnitude = fx_div(rs, fx_mul(fx_mul(2 * SCALE, r), r));
    v3_div(v3_scale(delta, magnitude), r)
}

/// The acceleration of body `i` due to the bodies before index `n`,
/// leaving out itself and every body within the singularity guard.
pub open spec fn accel_partial(bodies: Seq<BodyModel>, i: int, n: int) -> Vec3Model
    decreases n,
{
    if n <= 0 {
        v3_zero()
    } else {
        let before = accel_partial(bodies, i, n - 1);
        let j = n - 1;
        let delta = v3_sub(bodies[j].position, bodies[i].position);
        let r = v3_length(delta);
        if j == i || r < SINGULARITY_GUARD {
            before
        } else {
            v3_add(before, pull(delta, r, bodies[j].rs))
        }
    }
}

/// The acceleration of body `i` due to all the others.
pub open spec fn accel_on(bodies: Seq<BodyModel>, i: int) -> Vec3Model {
    accel_partial(bodies, i, bodies.len() as int)
}

/// A body after its velocity has been advanced by half of `dt` under `accel`.
pub open spec fn kicked(b: BodyModel, accel: Vec3Model, dt: int) -> BodyModel {
    BodyModel {
        velocity: v3_add(b.velocity, v3_scale(v3_scale(accel, dt), SCALE / 2)),
        ..b
    }
}

/// A body after its position has been advanced by `dt` along its velocity.
pub open spec fn drifted(b: BodyModel, dt: int) -> BodyModel {
    BodyModel { position: v3_add(b.position, v3_scale(b.velocity, dt)), ..b }
}

/// Every body kicked by the acceleration the whole set exerts on it.
pub open spec fn kick_all(bodies: Seq<BodyModel>, dt: int) -> Seq<BodyModel> {
    Seq::new(bodies.len(), |i: int| kicked(bodies[i], accel_on(bodies, i), dt))
}

/// Every body drifted along its own velocity.
pub open spec fn drift_all(bodies: Seq<BodyModel>, dt: int) -> Seq<BodyModel> {
    Seq::new(bodies.len(), |i: int| drifted(bodies[i], dt))
}

/// One leapfrog step of length `dt`: half kick, drift, half kick with the
/// accelerations of the new positions.
pub open spec fn leapfrog(bodies: Seq<BodyModel>, dt: int) -> Seq<BodyModel> {
    kick_all(drift_all(kick_all(bodies, dt), dt), dt)
}

fn acceleration_on(bodies: &Vec<Body>, i: usize) -> (acc: Vec3)
    requires
        i < bodies.len(),
    ensures
        acc@ == accel_on(models(bodies@), i as int),
{
    let n: usize = bodies.len();
    let two: Scalar = Scalar::from_int(2);
    let mut acc: Vec3 = Vec3::zero();
    let mut j: usize = 0;
    while j < n
        invariant
            j <= n,
            n == bodies.len(),
            i < n,
            two@ == 2 * SCALE,
            acc@ == accel_partial(models(bodies@), i as int, j as int),
        decreases n - j,
    {
        if j != i {
            let delta: Vec3 = bodies[j].position.sub(bodies[i].position);
            let r: Scalar = delta.length();
            if r.raw() >= SINGULARITY_GUARD {
                let magnitude: Scalar = bodies[j].rs.div(two.mul(r).mul(r));
                acc = acc.add(delta.scale(magnitude).div(r));
            }
        }
        j += 1;
    }
    acc
}

fn kick(bodies: &mut Vec<Body>, dt: Scalar)
    ensures
        models(final(bodies)@) == kick_all(models(old(bodies)@), dt@),
        final(bodies).len() == old(bodies).len(),
{
    let n: usize = bodies.len();
    let half: Scalar = Scalar::from_milli(500);
    let mut accels: Vec<Vec3> = Vec::new();
    let mut i: usize = 0;
    while i < n
        invariant
            i <= n,
            n == bodies.len(),
            accels.len() == i,
            forall|k: int| 0 <= k < i ==> accels[k]@ == accel_on(models(bodies@), k),
        decreases n - i,
    {
        let acc: Vec3 = acceleration_on(bodies, i);
        accels.push(acc);
        i += 1;
    }
    let ghost before = models(bodies@);
    let mut i: usize = 0;
    while i < n
        invariant
            i <= n,
            n == bodies.len(),
            accels.len() == n,
            half@ == SCALE / 2,
            before.len() == n,
            forall|k: int| 0 <= k < n ==> accels[k]@ == accel_on(before, k),
            forall|k: int| 0 <= k < i ==> bodies[k]@ == kicked(before[k], accel_on(before, k), dt@),
            forall|k: int| i <= k < n ==> bodies[k]@ == before[k],
        decreases n - i,
    {
        let mut b: Body = bodies[i];
        b.velocity = b.velocity.add(accels[i].scale(dt).scale(half));
        bodies.set(i, b);
        i += 1;
    }
    assert(models(bodies@) =~= kick_all(before, dt@));
}

fn drift(bodies: &mut Vec<Body>, dt: Scalar)
    ensures
        models(final(bodies)@) == drift_all(models(old(bodies)@), dt@),
        final(bodies).len() == old(bodies).len(),
{
    let n: usize = bodies.len();
    let ghost before = models(bodies@);
    let mut i: usize = 0;
    while i < n
        invariant
            i <= n,
            n == bodies.len(),
            before.len() == n,
            forall|k: int| 0 <= k < i ==> bodies[k]@ == drifted(before[k], dt@),
            forall|k: int| i <= k < n ==> bodies[k]@ == before[k],
        decreases n - i,
    {
        let mut b: Body = bodies[i];
        b.position = b.position.add(b.velocity.scale(dt));
        bodies.set(i, b);
        i += 1;
    }
    assert(models(bodies@) =~= drift_all(before, dt@));
}

/// A body with the default disk: from three to fifteen Schwarzschild radii.
pub open spec fn new_body(position: Vec3Model, velocity: Vec3Model, rs: int) -> BodyModel {
    BodyModel {
        position,
        velocity,
        rs,
        disk_inner_mult: 3 * SCALE,
        disk_outer_mult: 15 * SCALE,
    }
}

impl Body {
    /// A body with the default disk: from three to fifteen Schwarzschild radii.
    pub fn new(position: Vec3, velocity: Vec3, rs: Scalar) -> (b: Body)
        ensures
            b@ == new_body(position@, velocity@, rs@),
            b.position == position,
            b.velocity == velocity,
            b.rs == rs,
    {
        Body {
            position,
            velocity,
            rs,
            disk_inner_mult: Scalar::from_int(3),
            disk_outer_mult: Scalar::from_int(15),
        }
    }
}

/// A named initial configuration.
#[derive(Debug, Clone, Copy, PartialEq, Eq, Structural)]
pub enum Preset {
    /// One body at rest.
    Single,
    /// Two equal bodies on a circular mutual orbit.
    Binary,
    /// Three equal bodies at the corners of a rotating equilateral triangle.
    Triple,
}

/// The display name of a preset.
pub open spec fn preset_name(p: Preset) -> Seq<char> {
    match p {
        Preset::Single => "Single"@,
        Preset::Binary => "Binary"@,
        Preset::Triple => "Triple"@,
    }
}

/// Cosine of `k` thirds of a full turn, for `k` in `0..3`.
pub open spec fn third_turn_cos(k: int) -> int {
    if k == 0 {
        SCALE as int
    } else {
        -(SCALE / 2)
    }
}

/// Sine of `k` thirds of a full turn, for `k` in `0..3`: zero, then plus and
/// minus half the square root of three.
pub open spec fn third_turn_sin(k: int) -> int {
    let h = fx_div(fx_sqrt(3 * SCALE), 2 * SCALE);
    if k == 0 {
        0
    } else if k == 1 {
        h
    } else {
        -h
    }
}

/// Body `k` of the binary preset: radius one half, six apart on the x axis,
/// moving along z with the speed of a circular orbit, `sqrt(rs / (4 d))`.
pub open spec fn binary_body(k: int) -> BodyModel {
    let separation = 6 * SCALE;
    let rs = SCALE / 2;
    let v = fx_sqrt(fx_div(rs, fx_mul(4 * SCALE, separation)));
    if k == 0 {
        new_body(
            Vec3Model { x: fx_div(separation, 2 * SCALE), y: 0, z: 0 },
            Vec3Model { x: 0, y: 0, z: v },
            rs,
        )
    } else {
        new_body(
            Vec3Model { x: fx_div(fx_neg(separation), 2 * SCALE), y: 0, z: 0 },
            Vec3Model { x: 0, y: 0, z: -v },
            rs,
        )
    }
}

/// Body `k` of the triple preset: radius two fifths, on a circle of radius
/// five in the xz plane at `k` thirds of a turn, moving along the tangent
/// with the speed `sqrt(2 rs / (4 s))` for the side `s` of the triangle.
pub open spec fn triple_body(k: int) -> BodyModel {
    let rs = 400_000_000;
    let radius = 5 * SCALE;
    let c = third_turn_cos(k);
    let s = third_turn_sin(k);
    let side = fx_mul(radius, fx_sqrt(3 * SCALE));
    let speed = fx_sqrt(fx_div(fx_mul(2 * SCALE, rs), fx_mul(4 * SCALE, side)));
    new_body(
        Vec3Model { x: fx_mul(radius, c), y: 0, z: fx_mul(radius, s) },
        v3_scale(Vec3Model { x: -s, y: 0, z: c }, speed),
        rs,
    )
}

/// The bodies a preset starts with.
pub open spec fn preset_bodies(p: Preset) -> Seq<BodyModel> {
    match p {
        Preset::Single => seq![new_body(v3_zero(), v3_zero(), SCALE as int)],
        Preset::Binary => Seq::new(2, |k: int| binary_body(k)),
        Preset::Triple => Seq::new(3, |k: int| triple_body(k)),
    }
}

/// Whether a preset starts paused: only the single body does.
pub open spec fn preset_paused(p: Preset) -> bool {
    p == Preset::Single
}

impl Preset {
    /// Every preset, in menu order.
    pub const ALL: [Preset; 3] = [Preset::Single, Preset::Binary, Preset::Triple];

    /// The display name.
    pub fn name(self) -> (r: &'static str)
        ensures
            r@ == preset_name(self),
    {
        match self {
            Preset::Single => "Single",
            Preset::Binary => "Binary",
            Preset::Triple => "Triple",
        }
    }
}

/// A body as handed to the ray marcher: one fixed-size record.
#[derive(Debug, Copy, Clone, PartialEq, Eq)]
pub struct GpuBody {
    /// Centre; the fourth component is zero.
    pub position: [Scalar; 4],
    pub rs: Scalar,
    /// Inner disk radius.
    pub disk_inner: Scalar,
    /// Outer disk radius.
    pub disk_outer: Scalar,
    pub _padding: Scalar,
}

/// The mathematical content of a [`GpuBody`].
pub struct GpuBodyModel {
    pub position: Vec3Model,
    pub position_w: int,
    pub rs: int,
    pub disk_inner: int,
    pub disk_outer: int,
    pub padding: int,
}

impl View for GpuBody {
    type V = GpuBodyModel;

    open spec fn view(&self) -> GpuBodyModel {
        GpuBodyModel {
            position: Vec3Model {
                x: self.position[0]@,
                y: self.position[1]@,
                z: self.position[2]@,
            },
            position_w: self.position[3]@,
            rs: self.rs@,
            disk_inner: self.disk_inner@,
            disk_outer: self.disk_outer@,
            padding: self._padding@,
        }
    }
}

/// The models of a sequence of records, in order.
pub open spec fn record_models(records: Seq<GpuBody>) -> Seq<GpuBodyModel> {
    Seq::new(records.len(), |i: int| records[i]@)
}

/// The inert record that fills unused capacity: every field zero.
pub open spec fn zero_record() -> GpuBodyModel {
    GpuBodyModel {
        position: v3_zero(),
        position_w: 0,
        rs: 0,
        disk_inner: 0,
        disk_outer: 0,
        padding: 0,
    }
}

/// The record of one body: its centre, its radius, and its disk bounds as
/// radii rather than multiples.
pub open spec fn pack_body(b: BodyModel) -> GpuBodyModel {
    GpuBodyModel {
        position: b.position,
        position_w: 0,
        rs: b.rs,
        disk_inner: fx_mul(b.disk_inner_mult, b.rs),
        disk_outer: fx_mul(b.disk_outer_mult, b.rs),
        padding: 0,
    }
}

/// The frame's body records: the first `MAX_BODIES` bodies in order, then
/// zero records up to capacity.
pub open spec fn pack_bodies(bodies: Seq<BodyModel>) -> Seq<GpuBodyModel> {
    Seq::new(
        MAX_BODIES as nat,
        |i: int|
            if i < bodies.len() {
                pack_body(bodies[i])
            } else {
                zero_record()
            },
    )
}

/// How many of the first `n` records differ from the zero record.
pub open spec fn nonzero_count(records: Seq<GpuBodyModel>, n: int) -> int
    decreases n,
{
    if n <= 0 {
        0
    } else {
        nonzero_count(records, n - 1) + if records[n - 1] != zero_record() {
            1int
        } else {
            0int
        }
    }
}

proof fn lemma_nonzero_count_of_packed(bodies: Seq<BodyModel>, n: int)
    requires
        bodies.len() <= MAX_BODIES,
        forall|i: int| 0 <= i < bodies.len() ==> (#[trigger] bodies[i]).rs != 0,
        0 <= n <= MAX_BODIES,
    ensures
        nonzero_count(pack_bodies(bodies), n) == if n <= bodies.len() {
            n
        } else {
            bodies.len() as int
        },
    decreases n,
{
    if n > 0 {
        lemma_nonzero_count_of_packed(bodies, n - 1);
        if n - 1 < bodies.len() {
            assert(pack_bodies(bodies)[n - 1].rs == bodies[n - 1].rs);
        }
    }
}

/// Packing at most `MAX_BODIES` bodies of radius other than zero gives one
/// record other than zero for each body, in order, and zero records in all
/// the capacity that is left: as many records differ from zero as there are
/// bodies.
pub proof fn lemma_packing_fills_the_rest_with_zeros(bodies: Seq<BodyModel>)
    requires
        bodies.len() <= MAX_BODIES,
        forall|i: int| 0 <= i < bodies.len() ==> (#[trigger] bodies[i]).rs != 0,
    ensures
        pack_bodies(bodies).len() == MAX_BODIES,
        forall|i: int|
            0 <= i < bodies.len() ==> #[trigger] pack_bodies(bodies)[i] == pack_body(bodies[i])
                && pack_bodies(bodies)[i] != zero_record(),
        forall|i: int|
            bodies.len() <= i < MAX_BODIES ==> #[trigger] pack_bodies(bodies)[i] == zero_record(),
        nonzero_count(pack_bodies(bodies), MAX_BODIES as int) == bodies.len(),
{
    lemma_nonzero_count_of_packed(bodies, MAX_BODIES as int);
    assert forall|i: int| 0 <= i < bodies.len() implies #[trigger] pack_bodies(bodies)[i]
        == pack_body(bodies[i]) && pack_bodies(bodies)[i] != zero_record() by {
        assert(pack_bodies(bodies)[i].rs == bodies[i].rs);
    }
}

impl GpuBody {
    /// The inert record: every field zero.
    pub fn zeroed() -> (r: GpuBody)
        ensures
            r@ == zero_record(),
    {
        let z: Scalar = Scalar::zero();
        GpuBody { position: [z, z, z, z], rs: z, disk_inner: z, disk_outer: z, _padding: z }
    }
}

impl Default for GpuBody {
    fn default() -> (r: GpuBody)
        ensures
            r@ == zero_record(),
    {
        GpuBody::zeroed()
    }
}

/// The state of the orbit simulation.
pub struct Simulation {
    pub bodies: Vec<Body>,
    /// Simulated time elapsed.
    pub time: Scalar,
    pub paused: bool,
    /// Factor applied to every time step.
    pub speed: Scalar,
    pub preset: Preset,
}

/// The mathematical content of a [`Simulation`].
pub struct SimulationModel {
    pub bodies: Seq<BodyModel>,
    pub time: int,
    pub paused: bool,
    pub speed: int,
    pub preset: Preset,
}

impl View for Simulation {
    type V = SimulationModel;

    open spec fn view(&self) -> SimulationModel {
        SimulationModel {
            bodies: models(self.bodies@),
            time: self.time@,
            paused: self.paused,
            speed: self.speed@,
            preset: self.preset,
        }
    }
}

/// Whether the bodies fit in a frame: there are at most `MAX_BODIES`.
pub open spec fn within_capacity(s: SimulationModel) -> bool {
    s.bodies.len() <= MAX_BODIES
}

/// The state a preset starts from: its bodies, time zero, unit speed.
pub open spec fn initial_state(p: Preset) -> SimulationModel {
    SimulationModel {
        bodies: preset_bodies(p),
        time: 0,
        paused: preset_paused(p),
        speed: SCALE as int,
        preset: p,
    }
}

/// The state after one call of `step` with time step `dt`: unchanged while
/// paused or with at most one body, else one leapfrog step of length
/// `dt * speed` and the clock advanced by as much.
pub open spec fn spec_step(s: SimulationModel, dt: int) -> SimulationModel {
    if s.paused || s.bodies.len() <= 1 {
        s
    } else {
        let h = fx_mul(dt, s.speed);
        SimulationModel { bodies: leapfrog(s.bodies, h), time: fx_add(s.time, h), ..s }
    }
}

/// The state after one call of `step` for each time step of `dts`, in order.
pub open spec fn after_steps(s: SimulationModel, dts: Seq<int>) -> SimulationModel
    decreases dts.len(),
{
    if dts.len() == 0 {
        s
    } else {
        spec_step(after_steps(s, dts.drop_last()), dts.last())
    }
}

/// The longest time step taken on the way to a still image, in raw units:
/// sixteen thousandths, one frame at sixty a second.
pub const FRAME_STEP: i64 = 16_000_000;

/// The number of steps taken to reach the positive time `sim_time`: as
/// many frame steps as cover it, but no more than fit in 32 bits.
pub open spec fn steps_to(sim_time: int) -> int {
    let frames = (sim_time - 1) / (FRAME_STEP as int) + 1;
    if frames > u32::MAX {
        u32::MAX as int
    } else {
        frames
    }
}

/// The state after `run_for`: unchanged for a time that is not positive,
/// else unpaused and advanced by `steps_to(sim_time)` equal steps of
/// length `sim_time / steps_to(sim_time)`.
pub open spec fn spec_run_for(s: SimulationModel, sim_time: int) -> SimulationModel {
    if sim_time <= 0 {
        s
    } else {
        let steps = steps_to(sim_time);
        let dt = fx_div(sim_time, clamp(steps * SCALE));
        after_steps(SimulationModel { paused: false, ..s }, Seq::new(steps as nat, |i: int| dt))
    }
}

/// A step moves bodies and the clock and nothing else: the number of
/// bodies, every body's radius and disk, the pause, the speed factor and
/// the preset stay as they were.
pub proof fn lemma_step_keeps_parameters(s: SimulationModel, dt: int)
    ensures
        spec_step(s, dt).bodies.len() == s.bodies.len(),
        forall|i: int|
            0 <= i < s.bodies.len() ==> {
                let after = #[trigger] spec_step(s, dt).bodies[i];
                &&& after.rs == s.bodies[i].rs
                &&& after.disk_inner_mult == s.bodies[i].disk_inner_mult
                &&& after.disk_outer_mult == s.bodies[i].disk_outer_mult
            },
        spec_step(s, dt).paused == s.paused,
        spec_step(s, dt).speed == s.speed,
        spec_step(s, dt).preset == s.preset,
{
}

/// Stepping a simulation that is paused, or that has at most one body, any
/// number of times with any time steps leaves it exactly as it was.
pub proof fn lemma_idle_simulation_never_changes(s: SimulationModel, dts: Seq<int>)
    requires
        s.paused || s.bodies.len() <= 1,
    ensures
        after_steps(s, dts) == s,
    decreases dts.len(),
{
    if dts.len() > 0 {
        lemma_idle_simulation_never_changes(s, dts.drop_last());
    }
}

/// The single-body preset never moves, whatever time steps it is given.
pub proof fn lemma_single_preset_never_moves(dts: Seq<int>)
    ensures
        after_steps(initial_state(Preset::Single), dts) == initial_state(Preset::Single),
{
    lemma_idle_simulation_never_changes(initial_state(Preset::Single), dts);
}

fn third_turn(k: usize) -> (r: (Scalar, Scalar))
    requires
        k < 3,
    ensures
        r.0@ == third_turn_cos(k as int),
        r.1@ == third_turn_sin(k as int),
{
    let h: Scalar = Scalar::from_int(3).sqrt().div(Scalar::from_int(2));
    if k == 0 {
        (Scalar::one(), Scalar::zero())
    } else if k == 1 {
        (Scalar::from_milli(-500), h)
    } else {
        (Scalar::from_milli(-500), h.neg())
    }
}

fn binary_bodies() -> (bodies: Vec<Body>)
    ensures
        models(bodies@) == preset_bodies(Preset::Binary),
{
    let separation: Scalar = Scalar::from_int(6);
    let rs: Scalar = Scalar::from_milli(500);
    let two: Scalar = Scalar::from_int(2);
    let v: Scalar = rs.div(Scalar::from_int(4).mul(separation)).sqrt();
    let mut bodies: Vec<Body> = Vec::new();
    bodies.push(
        Body::new(
            Vec3::new(separation.div(two), Scalar::zero(), Scalar::zero()),
            Vec3::new(Scalar::zero(), Scalar::zero(), v),
            rs,
        ),
    );
    bodies.push(
        Body::new(
            Vec3::new(separation.neg().div(two), Scalar::zero(), Scalar::zero()),
            Vec3::new(Scalar::zero(), Scalar::zero(), v.neg()),
            rs,
        ),
    );
    assert(models(bodies@) =~= preset_bodies(Preset::Binary));
    bodies
}

fn triple_bodies() -> (bodies: Vec<Body>)
    ensures
        models(bodies@) == preset_bodies(Preset::Triple),
{
    let rs: Scalar = Scalar::from_milli(400);
    let radius: Scalar = Scalar::from_int(5);
    let mut bodies: Vec<Body> = Vec::new();
    let mut k: usize = 0;
    while k < 3
        invariant
            k <= 3,
            bodies.len() == k,
            rs@ == 400_000_000,
            radius@ == 5 * SCALE,
            forall|m: int| 0 <= m < k ==> bodies[m]@ == triple_body(m),
        decreases 3 - k,
    {
        let (c, s) = third_turn(k);
        let position: Vec3 = Vec3::new(radius.mul(c), Scalar::zero(), radius.mul(s));
        let side: Scalar = radius.mul(Scalar::from_int(3).sqrt());
        let speed: Scalar = Scalar::from_int(2).mul(rs).div(Scalar::from_int(4).mul(side)).sqrt();
        let tangent: Vec3 = Vec3::new(s.neg(), Scalar::zero(), c);
        bodies.push(Body::new(position, tangent.scale(speed), rs));
        k += 1;
    }
    assert(models(bodies@) =~= preset_bodies(Preset::Triple));
    bodies
}

impl Simulation {
    /// A simulation in the initial state of `preset`.
    pub fn new(preset: Preset) -> (sim: Simulation)
        ensures
            sim@ == initial_state(preset),
            within_capacity(sim@),
    {
        let mut sim = Simulation {
            bodies: Vec::new(),
            time: Scalar::zero(),
            paused: true,
            speed: Scalar::one(),
            preset,
        };
        sim.load_preset(preset);
        sim
    }

    /// Replaces the bodies by those of `preset` and resets the clock; the
    /// speed factor is kept.
    pub fn load_preset(&mut self, preset: Preset)
        ensures
            final(self)@ == (SimulationModel { speed: old(self)@.speed, ..initial_state(preset) }),
            within_capacity(final(self)@),
    {
        self.preset = preset;
        self.time = Scalar::zero();
        match preset {
            Preset::Single => {
                let mut bodies: Vec<Body> = Vec::new();
                bodies.push(Body::new(Vec3::zero(), Vec3::zero(), Scalar::one()));
                assert(models(bodies@) =~= preset_bodies(Preset::Single));
                self.bodies = bodies;
                self.paused = true;
            },
            Preset::Binary => {
                self.bodies = binary_bodies();
                self.paused = false;
            },
            Preset::Triple => {
                self.bodies = triple_bodies();
                self.paused = false;
            },
        }
    }

    /// Advances the bodies by one leapfrog step of length `dt * speed`.
    /// Does nothing while paused or with at most one body.
    pub fn step(&mut self, dt: Scalar)
        ensures
            final(self)@ == spec_step(old(self)@, dt@),
            old(self).paused || old(self).bodies.len() <= 1 ==> *final(self) == *old(self),
            final(self).bodies.len() == old(self).bodies.len(),
    {
        if self.paused || self.bodies.len() <= 1 {
            return ;
        }
        let h: Scalar = dt.mul(self.speed);
        kick(&mut self.bodies, h);
        drift(&mut self.bodies, h);
        kick(&mut self.bodies, h);
        self.time = self.time.add(h);
    }

    /// Brings a freshly loaded simulation to the simulated time `sim_time`:
    /// where that is positive, unpauses it and takes equal steps of at most
    /// sixteen thousandths that add up to `sim_time`. Otherwise nothing
    /// changes.
    pub fn run_for(&mut self, sim_time: Scalar)
        ensures
            final(self)@ == spec_run_for(old(self)@, sim_time@),
    {
        let total: i64 = sim_time.raw();
        if total <= 0 {
            return ;
        }
        self.paused = false;
        let frames: i64 = (total - 1) / FRAME_STEP + 1;
        let steps: u32 = if frames > u32::MAX as i64 {
            u32::MAX
        } else {
            frames as u32
        };
        let dt: Scalar = sim_time.div(Scalar::from_int(steps as i64));
        let ghost start = self@;
        let mut taken: u32 = 0;
        assert(Seq::new(0, |i: int| dt@) =~= Seq::<int>::empty());
        while taken < steps
            invariant
                taken <= steps,
                self@ == after_steps(start, Seq::new(taken as nat, |i: int| dt@)),
            decreases steps - taken,
        {
            self.step(dt);
            assert(Seq::new((taken + 1) as nat, |i: int| dt@).drop_last() =~= Seq::new(
                taken as nat,
                |i: int| dt@,
            ));
            taken += 1;
        }
    }

    /// Packs the bodies into the fixed-size array of records that a frame
    /// carries: the first `MAX_BODIES` in order, the rest of the capacity
    /// zero-filled.
    pub fn gpu_bodies(&self) -> (records: [GpuBody; MAX_BODIES])
        ensures
            record_models(records@) == pack_bodies(self@.bodies),
    {
        let mut records: [GpuBody; MAX_BODIES] = [GpuBody::zeroed(); MAX_BODIES];
        let n: usize = self.bodies.len();
        let mut i: usize = 0;
        while i < n && i < MAX_BODIES
            invariant
                i <= MAX_BODIES,
                i <= n,
                n == self.bodies.len(),
                forall|k: int| 0 <= k < i ==> records[k]@ == pack_body(self.bodies[k]@),
                forall|k: int| i <= k < MAX_BODIES ==> records[k]@ == zero_record(),
            decreases n - i,
        {
            let body: Body = self.bodies[i];
            let zero: Scalar = Scalar::zero();
            let record = GpuBody {
                position: [body.position.x, body.position.y, body.position.z, zero],
                rs: body.rs,
                disk_inner: body.disk_inner_mult.mul(body.rs),
                disk_outer: body.disk_outer_mult.mul(body.rs),
                _padding: zero,
            };
            records[i] = record;
            i += 1;
        }
        assert(record_models(records@) =~= pack_bodies(self@.bodies));
        records
    }
}

} // verus!
