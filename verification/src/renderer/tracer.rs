//! The geodesic ray marcher.
//!
//! A ray is a photon treated as a test particle in the superposed weak
//! field of all active bodies. It is marched in fixed steps: the direction
//! is bent by the field, then the position follows the new direction.
//! After each step the ray is tested first for capture inside a horizon,
//! then for a hit on an accretion disk; when the step budget runs out it
//! has escaped. Every ray therefore ends after at most `max_steps` steps.

use crate::scalar::{fx_add, fx_div, fx_mul, fx_sub, Scalar, SCALE};
use crate::isqrt::lemma_floor_sqrt_exists;
use crate::simulation::{
    pull, record_models, zero_record, GpuBody, GpuBodyModel, MAX_BODIES,
};
use crate::vec3::{
    v3_add, v3_in_range, v3_length, v3_scale, v3_sub, v3_zero, Vec3, Vec3Model,
};
use vstd::prelude::*;

verus! {

/// The fate of a ray.
#[derive(Debug, Copy, Clone, PartialEq, Eq)]
pub enum TraceResult {
    /// The ray fell inside the horizon of the body with this index.
    Captured(usize),
    /// The ray hit the disk of the body with this index, at this fraction
    /// of the way from the disk's inner to its outer edge.
    DiskHit(usize, Scalar),
    /// The ray used up its steps; this is its final direction.
    Escaped(Vec3),
}

/// The mathematical content of a [`TraceResult`].
pub enum TraceModel {
    Captured(int),
    DiskHit(int, int),
    Escaped(Vec3Model),
}

impl View for TraceResult {
    type V = TraceModel;

    open spec fn view(&self) -> TraceModel {
        match *self {
            TraceResult::Captured(k) => TraceModel::Captured(k as int),
            TraceResult::DiskHit(k, f) => TraceModel::DiskHit(k as int, f@),
            TraceResult::Escaped(d) => TraceModel::Escaped(d@),
        }
    }
}

/// A ray in flight.
pub struct RayModel {
    pub position: Vec3Model,
    pub direction: Vec3Model,
}

/// The acceleration of a photon at `pos` due to the first `n` bodies: the
/// sum, in index order, of each body's pull `rs / (2 r^2)` toward it.
pub open spec fn deflection(pos: Vec3Model, bodies: Seq<GpuBodyModel>, n: int) -> Vec3Model
    decreases n,
{
    if n <= 0 {
        v3_zero()
    } else {
        let b = bodies[n - 1];
        let delta = v3_sub(b.position, pos);
        v3_add(deflection(pos, bodies, n - 1), pull(delta, v3_length(delta), b.rs))
    }
}

/// One marching step of length `h`: the direction is bent first, then the
/// position moves along the new direction.
pub open spec fn advance(ray: RayModel, bodies: Seq<GpuBodyModel>, n: int, h: int) -> RayModel {
    let direction = v3_add(ray.direction, v3_scale(deflection(ray.position, bodies, n), h));
    RayModel { position: v3_add(ray.position, v3_scale(direction, h)), direction }
}

/// Whether `pos` lies closer to the centre of `b` than its Schwarzschild
/// radius.
pub open spec fn inside_horizon(pos: Vec3Model, b: GpuBodyModel) -> bool {
    v3_length(v3_sub(b.position, pos)) < b.rs
}

/// The lowest index in `from..n` of a body whose horizon holds `pos`.
pub open spec fn first_captor(pos: Vec3Model, bodies: Seq<GpuBodyModel>, from: int, n: int)
    -> Option<int>
    decreases n - from,
{
    if from >= n {
        None
    } else if inside_horizon(pos, bodies[from]) {
        Some(from)
    } else {
        first_captor(pos, bodies, from + 1, n)
    }
}

/// Whether a move from height `y0` to height `y1` above a plane reaches or
/// passes through the plane. A move that starts in the plane does not.
pub open spec fn crosses_plane(y0: int, y1: int) -> bool {
    (y0 > 0 && y1 <= 0) || (y0 < 0 && y1 >= 0)
}

/// The distance from the centre of `b`, measured in its equatorial plane,
/// of the point where the segment from `before` to `after` meets that plane.
pub open spec fn crossing_radius(before: Vec3Model, after: Vec3Model, b: GpuBodyModel) -> int {
    let y0 = fx_sub(before.y, b.position.y);
    let y1 = fx_sub(after.y, b.position.y);
    let t = fx_div(y0, fx_sub(y0, y1));
    let x = fx_add(before.x, fx_mul(fx_sub(after.x, before.x), t));
    let z = fx_add(before.z, fx_mul(fx_sub(after.z, before.z), t));
    v3_length(Vec3Model { x: fx_sub(x, b.position.x), y: 0, z: fx_sub(z, b.position.z) })
}

/// Whether the segment from `before` to `after` crosses the equatorial
/// plane of `b` between the inner and the outer edge of its disk, both
/// included.
pub open spec fn hits_disk(before: Vec3Model, after: Vec3Model, b: GpuBodyModel) -> bool {
    let rho = crossing_radius(before, after, b);
    &&& crosses_plane(fx_sub(before.y, b.position.y), fx_sub(after.y, b.position.y))
    &&& b.disk_inner <= rho <= b.disk_outer
}

/// How far across the disk of `b` the crossing lies: zero at the inner
/// edge, one at the outer edge.
pub open spec fn radial_fraction(before: Vec3Model, after: Vec3Model, b: GpuBodyModel) -> int {
    fx_div(
        fx_sub(crossing_radius(before, after, b), b.disk_inner),
        fx_sub(b.disk_outer, b.disk_inner),
    )
}

/// The lowest index in `from..n` of a body whose disk the segment hits.
pub open spec fn first_disk(
    before: Vec3Model,
    after: Vec3Model,
    bodies: Seq<GpuBodyModel>,
    from: int,
    n: int,
) -> Option<int>
    decreases n - from,
{
    if from >= n {
        None
    } else if hits_disk(before, after, bodies[from]) {
        Some(from)
    } else {
        first_disk(before, after, bodies, from + 1, n)
    }
}

/// The fate of a ray that has `steps` steps of length `h` left, among the
/// first `n` bodies. With no step left it has escaped. Else it takes one
/// step; capture at the new position comes first, then, where disks are
/// drawn, a disk hit on the way there, and otherwise the march goes on.
pub open spec fn trace_from(
    ray: RayModel,
    bodies: Seq<GpuBodyModel>,
    n: int,
    steps: nat,
    h: int,
    disk_enabled: bool,
) -> TraceModel
    decreases steps,
{
    if steps == 0 {
        TraceModel::Escaped(ray.direction)
    } else {
        let next = advance(ray, bodies, n, h);
        let captor = first_captor(next.position, bodies, 0, n);
        let disk = first_disk(ray.position, next.position, bodies, 0, n);
        if captor is Some {
            TraceModel::Captured(captor->0)
        } else if disk_enabled && disk is Some {
            TraceModel::DiskHit(
                disk->0,
                radial_fraction(ray.position, next.position, bodies[disk->0]),
            )
        } else {
            trace_from(next, bodies, n, (steps - 1) as nat, h, disk_enabled)
        }
    }
}

/// The number of records that are read: `num_bodies`, up to capacity.
pub open spec fn active_count(num_bodies: int) -> int {
    if num_bodies <= MAX_BODIES {
        num_bodies
    } else {
        MAX_BODIES as int
    }
}

/// The fate of a ray from `origin` along `direction`.
pub open spec fn spec_trace(
    origin: Vec3Model,
    direction: Vec3Model,
    bodies: Seq<GpuBodyModel>,
    num_bodies: int,
    max_steps: nat,
    step_size: int,
    disk_enabled: bool,
) -> TraceModel {
    trace_from(
        RayModel { position: origin, direction },
        bodies,
        active_count(num_bodies),
        max_steps,
        step_size,
        disk_enabled,
    )
}

/// A ray that ends before its budget runs out ends the same way under
/// every larger budget.
pub proof fn lemma_larger_budget_same_fate(
    ray: RayModel,
    bodies: Seq<GpuBodyModel>,
    n: int,
    steps: nat,
    more: nat,
    h: int,
    disk_enabled: bool,
)
    requires
        steps <= more,
        !(trace_from(ray, bodies, n, steps, h, disk_enabled) is Escaped),
    ensures
        trace_from(ray, bodies, n, more, h, disk_enabled) == trace_from(
            ray,
            bodies,
            n,
            steps,
            h,
            disk_enabled,
        ),
    decreases steps,
{
    if steps > 0 {
        let next = advance(ray, bodies, n, h);
        let captor = first_captor(next.position, bodies, 0, n);
        let disk = first_disk(ray.position, next.position, bodies, 0, n);
        if captor is None && !(disk_enabled && disk is Some) {
            lemma_larger_budget_same_fate(
                next,
                bodies,
                n,
                (steps - 1) as nat,
                (more - 1) as nat,
                h,
                disk_enabled,
            );
        }
    }
}

/// A ray whose first step lands inside the horizon of a lone body is
/// captured by it, whatever the budget, as long as there is one step.
pub proof fn lemma_lone_body_captures(
    ray: RayModel,
    bodies: Seq<GpuBodyModel>,
    steps: nat,
    h: int,
    disk_enabled: bool,
)
    requires
        steps >= 1,
        inside_horizon(advance(ray, bodies, 1, h).position, bodies[0]),
    ensures
        trace_from(ray, bodies, 1, steps, h, disk_enabled) == TraceModel::Captured(0),
{
    reveal_with_fuel(first_captor, 2);
}

/// A zero record is inert: wherever the ray is, it adds nothing to the
/// deflection and its horizon holds nothing.
pub proof fn lemma_zero_record_is_inert(pos: Vec3Model, bodies: Seq<GpuBodyModel>, n: int)
    requires
        0 < n <= bodies.len(),
        bodies[n - 1] == zero_record(),
    ensures
        deflection(pos, bodies, n) == deflection(pos, bodies, n - 1),
        !inside_horizon(pos, bodies[n - 1]),
{
    let delta = v3_sub(bodies[n - 1].position, pos);
    let r = v3_length(delta);
    assert(pull(delta, r, 0) == v3_zero()) by {
        assert(delta.x * 0 == 0 && delta.y * 0 == 0 && delta.z * 0 == 0) by (nonlinear_arith);
        assert(0 * SCALE == 0);
    }
    lemma_deflection_in_range(pos, bodies, n - 1);
    assert(delta.x * delta.x >= 0 && delta.y * delta.y >= 0 && delta.z * delta.z >= 0)
        by (nonlinear_arith);
    lemma_floor_sqrt_exists(delta.x * delta.x + delta.y * delta.y + delta.z * delta.z);
}

/// A deflection is a representable vector.
pub proof fn lemma_deflection_in_range(pos: Vec3Model, bodies: Seq<GpuBodyModel>, n: int)
    ensures
        v3_in_range(deflection(pos, bodies, n)),
    decreases n,
{
    if n > 0 {
        lemma_deflection_in_range(pos, bodies, n - 1);
    }
}

fn center(b: &GpuBody) -> (c: Vec3)
    ensures
        c@ == b@.position,
{
    Vec3::new(b.position[0], b.position[1], b.position[2])
}

fn deflect(pos: Vec3, bodies: &[GpuBody; MAX_BODIES], n: usize) -> (acc: Vec3)
    requires
        n <= MAX_BODIES,
    ensures
        acc@ == deflection(pos@, record_models(bodies@), n as int),
{
    let two: Scalar = Scalar::from_int(2);
    let mut acc: Vec3 = Vec3::zero();
    let mut k: usize = 0;
    while k < n
        invariant
            k <= n <= MAX_BODIES,
            two@ == 2 * SCALE,
            acc@ == deflection(pos@, record_models(bodies@), k as int),
        decreases n - k,
    {
        let delta: Vec3 = center(&bodies[k]).sub(pos);
        let r: Scalar = delta.length();
        let magnitude: Scalar = bodies[k].rs.div(two.mul(r).mul(r));
        acc = acc.add(delta.scale(magnitude).div(r));
        k += 1;
    }
    acc
}

fn find_captor(pos: Vec3, bodies: &[GpuBody; MAX_BODIES], n: usize) -> (found: Option<usize>)
    requires
        n <= MAX_BODIES,
    ensures
        match found {
            Some(k) => k < n && first_captor(pos@, record_models(bodies@), 0, n as int) == Some(
                k as int,
            ),
            None => first_captor(pos@, record_models(bodies@), 0, n as int) is None,
        },
{
    let mut k: usize = 0;
    while k < n
        invariant
            k <= n <= MAX_BODIES,
            first_captor(pos@, record_models(bodies@), 0, n as int) == first_captor(
                pos@,
                record_models(bodies@),
                k as int,
                n as int,
            ),
        decreases n - k,
    {
        let distance: Scalar = center(&bodies[k]).sub(pos).length();
        if distance.raw() < bodies[k].rs.raw() {
            return Some(k);
        }
        k += 1;
    }
    None
}

fn radius_at_crossing(before: Vec3, after: Vec3, b: &GpuBody) -> (rho: Scalar)
    ensures
        rho@ == crossing_radius(before@, after@, b@),
{
    let c: Vec3 = center(b);
    let y0: Scalar = before.y.sub(c.y);
    let y1: Scalar = after.y.sub(c.y);
    let t: Scalar = y0.div(y0.sub(y1));
    let x: Scalar = before.x.add(after.x.sub(before.x).mul(t));
    let z: Scalar = before.z.add(after.z.sub(before.z).mul(t));
    Vec3::new(x.sub(c.x), Scalar::zero(), z.sub(c.z)).length()
}

fn find_disk(before: Vec3, after: Vec3, bodies: &[GpuBody; MAX_BODIES], n: usize) -> (found:
    Option<(usize, Scalar)>)
    requires
        n <= MAX_BODIES,
    ensures
        match found {
            Some((k, f)) => {
                &&& k < n
                &&& first_disk(before@, after@, record_models(bodies@), 0, n as int) == Some(
                    k as int,
                )
                &&& f@ == radial_fraction(before@, after@, record_models(bodies@)[k as int])
            },
            None => first_disk(before@, after@, record_models(bodies@), 0, n as int) is None,
        },
{
    let mut k: usize = 0;
    while k < n
        invariant
            k <= n <= MAX_BODIES,
            first_disk(before@, after@, record_models(bodies@), 0, n as int) == first_disk(
                before@,
                after@,
                record_models(bodies@),
                k as int,
                n as int,
            ),
        decreases n - k,
    {
        let b: &GpuBody = &bodies[k];
        let c: Vec3 = center(b);
        let y0: i64 = before.y.sub(c.y).raw();
        let y1: i64 = after.y.sub(c.y).raw();
        if (y0 > 0 && y1 <= 0) || (y0 < 0 && y1 >= 0) {
            let rho: Scalar = radius_at_crossing(before, after, b);
            if b.disk_inner.raw() <= rho.raw() && rho.raw() <= b.disk_outer.raw() {
                let fraction: Scalar = rho.sub(b.disk_inner).div(b.disk_outer.sub(b.disk_inner));
                return Some((k, fraction));
            }
        }
        k += 1;
    }
    None
}

/// Marches a ray from `ray_origin` along `ray_direction` through the field
/// of the first `num_bodies` records and says how it ends.
pub fn trace(
    ray_origin: Vec3,
    ray_direction: Vec3,
    bodies: &[GpuBody; MAX_BODIES],
    num_bodies: u32,
    max_steps: u32,
    step_size: Scalar,
    disk_enabled: bool,
) -> (result: TraceResult)
    ensures
        result@ == spec_trace(
            ray_origin@,
            ray_direction@,
            record_models(bodies@),
            num_bodies as int,
            max_steps as nat,
            step_size@,
            disk_enabled,
        ),
        match result {
            TraceResult::Captured(k) => k < MAX_BODIES && k < num_bodies,
            TraceResult::DiskHit(k, _) => k < MAX_BODIES && k < num_bodies && disk_enabled,
            TraceResult::Escaped(_) => true,
        },
{
    let n: usize = if num_bodies as usize <= MAX_BODIES {
        num_bodies as usize
    } else {
        MAX_BODIES
    };
    let ghost whole = spec_trace(
        ray_origin@,
        ray_direction@,
        record_models(bodies@),
        num_bodies as int,
        max_steps as nat,
        step_size@,
        disk_enabled,
    );
    let mut position: Vec3 = ray_origin;
    let mut direction: Vec3 = ray_direction;
    let mut left: u32 = max_steps;
    while left > 0
        invariant
            n <= MAX_BODIES,
            n <= num_bodies,
            whole == spec_trace(
                ray_origin@,
                ray_direction@,
                record_models(bodies@),
                num_bodies as int,
                max_steps as nat,
                step_size@,
                disk_enabled,
            ),
            whole == trace_from(
                RayModel { position: position@, direction: direction@ },
                record_models(bodies@),
                n as int,
                left as nat,
                step_size@,
                disk_enabled,
            ),
        decreases left,
    {
        let bent: Vec3 = direction.add(deflect(position, bodies, n).scale(step_size));
        let moved: Vec3 = position.add(bent.scale(step_size));
        match find_captor(moved, bodies, n) {
            Some(k) => {
                return TraceResult::Captured(k);
            },
            None => {},
        }
        if disk_enabled {
            match find_disk(position, moved, bodies, n) {
                Some((k, fraction)) => {
                    return TraceResult::DiskHit(k, fraction);
                },
                None => {},
            }
        }
        position = moved;
        direction = bent;
        left -= 1;
    }
    TraceResult::Escaped(direction)
}

} // verus!
