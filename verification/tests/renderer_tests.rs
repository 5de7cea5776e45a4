use spacetime_playground::metrics::schwarzschild::SchwarzschildParams;
use spacetime_playground::renderer::compositor::{
    composite, disk_glow, sample_background, Color,
};
use spacetime_playground::renderer::frame::{pack, CameraPose, FrameRecord, RenderParams};
use spacetime_playground::renderer::image::{pixel_ray, render_image, render_pixel, render_row};
use spacetime_playground::renderer::tracer::{trace, TraceResult};
use spacetime_playground::renderer::uniforms::Uniforms;
use spacetime_playground::scalar::{Scalar, SCALE};
use spacetime_playground::simulation::{Body, GpuBody, Preset, Simulation, MAX_BODIES};
use spacetime_playground::vec3::Vec3;

fn v(x: i64, y: i64, z: i64) -> Vec3 {
    Vec3::new(Scalar::from_raw(x), Scalar::from_raw(y), Scalar::from_raw(z))
}

fn raw3(v: Vec3) -> (i64, i64, i64) {
    (v.x.raw(), v.y.raw(), v.z.raw())
}

fn record_of(center: Vec3, rs: Scalar) -> GpuBody {
    let mut sim = Simulation::new(Preset::Single);
    sim.bodies[0] = Body::new(center, Vec3::zero(), rs);
    sim.gpu_bodies()[0]
}

fn scene(bodies: &[GpuBody]) -> [GpuBody; MAX_BODIES] {
    let mut all = [GpuBody::zeroed(); MAX_BODIES];
    all[..bodies.len()].copy_from_slice(bodies);
    all
}

fn lone_body() -> [GpuBody; MAX_BODIES] {
    scene(&[record_of(Vec3::zero(), Scalar::one())])
}

fn tenth() -> Scalar {
    Scalar::from_milli(100)
}

fn gray(level: u8) -> Color {
    Color { r: level, g: level, b: level }
}

#[test]
fn photon_sphere_of_unit_radius() {
    let p = SchwarzschildParams { rs: Scalar::one() };
    assert_eq!(p.photon_sphere_radius().raw(), 1_500_000_000);
    assert_eq!(p.photon_sphere_radius().raw() as f64 / SCALE as f64, 1.5);
}

#[test]
fn critical_impact_parameter_of_unit_radius() {
    let p = SchwarzschildParams { rs: Scalar::one() };
    assert_eq!(p.critical_impact_parameter().raw(), 2_598_076_210);
    let b = p.critical_impact_parameter().raw() as f64 / SCALE as f64;
    assert!((b - 1.5 * 3.0_f64.sqrt()).abs() < 1e-8);
}

#[test]
fn metric_quantities_scale_with_the_radius() {
    let p = SchwarzschildParams { rs: Scalar::from_milli(500) };
    assert_eq!(p.photon_sphere_radius().raw(), 750_000_000);
    assert_eq!(p.critical_impact_parameter().raw(), 1_299_038_105);
    assert_eq!(p.isco_radius().raw(), 1_500_000_000);
}

#[test]
fn metric_of_a_radius_that_is_not_positive() {
    let zero = SchwarzschildParams { rs: Scalar::zero() };
    assert_eq!(zero.photon_sphere_radius().raw(), 0);
    assert_eq!(zero.critical_impact_parameter().raw(), 0);
    let negative = SchwarzschildParams { rs: Scalar::from_int(-2) };
    assert_eq!(negative.photon_sphere_radius().raw(), -3_000_000_000);
    assert_eq!(negative.isco_radius().raw(), -6_000_000_000);
}

#[test]
fn default_metric_has_unit_radius() {
    assert_eq!(SchwarzschildParams::default().rs.raw(), SCALE);
}

#[test]
fn head_on_ray_is_captured() {
    let bodies = lone_body();
    let origin = v(10 * SCALE, 0, 0);
    let direction = v(-SCALE, 0, 0);
    for disk in [true, false] {
        assert_eq!(
            trace(origin, direction, &bodies, 1, 1000, tenth(), disk),
            TraceResult::Captured(0)
        );
    }
    // the horizon is reached on step 85
    assert_eq!(trace(origin, direction, &bodies, 1, 85, tenth(), false), TraceResult::Captured(0));
    assert!(matches!(
        trace(origin, direction, &bodies, 1, 84, tenth(), false),
        TraceResult::Escaped(_)
    ));
}

#[test]
fn ray_inside_the_horizon_is_captured_under_every_budget() {
    let bodies = lone_body();
    let origin = v(SCALE / 2, 0, 0);
    let direction = v(-SCALE, 0, 0);
    for max_steps in [1, 2, 3, 10, 600, 2000, u32::MAX] {
        assert_eq!(
            trace(origin, direction, &bodies, 1, max_steps, tenth(), true),
            TraceResult::Captured(0)
        );
    }
}

#[test]
fn distant_ray_escapes_almost_straight() {
    let bodies = lone_body();
    // impact parameter 30, more than ten times the critical one
    let result = trace(v(-50 * SCALE, 0, 30 * SCALE), v(SCALE, 0, 0), &bodies, 1, 1000, tenth(), true);
    match result {
        TraceResult::Escaped(d) => {
            assert_eq!(raw3(d), (999_652_221, 0, -28_792_916));
            let (x, z) = (d.x.raw() as f64 / 1e9, d.z.raw() as f64 / 1e9);
            let deviation = z.atan2(x).abs();
            assert!(deviation < 0.05, "deviation {}", deviation);
            // bent toward the mass, by about rs / b
            assert!(d.z.raw() < 0);
        }
        other => panic!("{:?}", other),
    }
}

#[test]
fn no_steps_means_escaped_at_once() {
    let bodies = lone_body();
    let direction = v(-SCALE, 0, 0);
    assert_eq!(
        trace(v(10 * SCALE, 0, 0), direction, &bodies, 1, 0, tenth(), true),
        TraceResult::Escaped(direction)
    );
    // even from inside the horizon
    assert_eq!(
        trace(v(SCALE / 2, 0, 0), direction, &bodies, 1, 0, tenth(), true),
        TraceResult::Escaped(direction)
    );
}

#[test]
fn no_bodies_means_a_straight_line() {
    let bodies = lone_body();
    let direction = v(-SCALE, 0, 0);
    assert_eq!(
        trace(v(10 * SCALE, 0, 0), direction, &bodies, 0, 50, tenth(), true),
        TraceResult::Escaped(direction)
    );
}

#[test]
fn zero_records_are_inert() {
    let bodies = [GpuBody::zeroed(); MAX_BODIES];
    let direction = v(600_000_000, -800_000_000, 0);
    assert_eq!(
        trace(v(0, SCALE, 0), direction, &bodies, 8, 100, tenth(), false),
        TraceResult::Escaped(direction)
    );
}

#[test]
fn ray_from_above_hits_the_disk() {
    let bodies = lone_body();
    let result = trace(v(0, 10 * SCALE, 5 * SCALE), v(0, -SCALE, 0), &bodies, 1, 1000, tenth(), true);
    assert_eq!(result, TraceResult::DiskHit(0, Scalar::from_raw(144_773_159)));
}

#[test]
fn ray_from_below_hits_the_disk() {
    let bodies = lone_body();
    let result = trace(v(0, -10 * SCALE, 5 * SCALE), v(0, SCALE, 0), &bodies, 1, 1000, tenth(), true);
    assert_eq!(result, TraceResult::DiskHit(0, Scalar::from_raw(144_773_159)));
}

#[test]
fn disabled_disk_lets_the_ray_through() {
    let bodies = lone_body();
    let result = trace(v(0, 10 * SCALE, 5 * SCALE), v(0, -SCALE, 0), &bodies, 1, 1000, tenth(), false);
    assert_eq!(result, TraceResult::Escaped(v(0, -941_708_671, -188_581_285)));
}

#[test]
fn ray_inside_the_inner_edge_misses_the_disk() {
    let bodies = lone_body();
    let result = trace(v(0, 10 * SCALE, 2 * SCALE), v(0, -SCALE, 0), &bodies, 1, 1000, tenth(), true);
    assert_eq!(result, TraceResult::Escaped(v(0, -834_540_286, -466_232_211)));
}

#[test]
fn ray_that_starts_in_the_plane_does_not_hit_the_disk() {
    let bodies = lone_body();
    // inside the disk's extent, moving within the plane
    let result = trace(v(20 * SCALE, 0, 0), v(0, 0, SCALE), &bodies, 1, 100, tenth(), true);
    assert_eq!(result, TraceResult::Escaped(v(-11_216_133, 0, 997_374_113)));
}

#[test]
fn capture_takes_priority_over_a_disk_hit() {
    // A disk that reaches inside the horizon: one long step from above the
    // plane lands below it and inside the horizon.
    let mut record = record_of(Vec3::zero(), Scalar::one());
    record.disk_inner = Scalar::zero();
    record.disk_outer = Scalar::from_int(15);
    let bodies = scene(&[record]);
    let origin = v(SCALE / 2, SCALE / 2, 0);
    let direction = v(0, -SCALE, 0);
    assert_eq!(
        trace(origin, direction, &bodies, 1, 5, Scalar::from_milli(600), true),
        TraceResult::Captured(0)
    );
}

#[test]
fn captor_index_is_reported() {
    let bodies = scene(&[
        record_of(v(20 * SCALE, 0, 0), Scalar::one()),
        record_of(v(-20 * SCALE, 0, 0), Scalar::from_int(2)),
    ]);
    let result = trace(Vec3::zero(), v(-SCALE, 0, 0), &bodies, 2, 1000, tenth(), false);
    assert_eq!(result, TraceResult::Captured(1));
}

#[test]
fn only_active_records_deflect() {
    let bodies = scene(&[
        record_of(v(20 * SCALE, 0, 0), Scalar::one()),
        record_of(v(-20 * SCALE, 0, 0), Scalar::from_int(2)),
    ]);
    let result = trace(Vec3::zero(), v(-SCALE, 0, 0), &bodies, 1, 300, tenth(), false);
    assert_eq!(result, TraceResult::Escaped(v(-984_892_655, 0, 0)));
}

#[test]
fn body_count_beyond_capacity_reads_eight_records() {
    let bodies = lone_body();
    let origin = v(10 * SCALE, 0, 0);
    let direction = v(-SCALE, 0, 0);
    assert_eq!(
        trace(origin, direction, &bodies, 1000, 200, tenth(), false),
        trace(origin, direction, &bodies, 8, 200, tenth(), false)
    );
}

#[test]
fn grazing_ray_is_bent_toward_the_mass() {
    let bodies = lone_body();
    let result = trace(v(-30 * SCALE, 0, 3 * SCALE), v(SCALE, 0, 0), &bodies, 1, 2000, tenth(), false);
    assert_eq!(result, TraceResult::Escaped(v(931_494_782, 0, -324_195_730)));
}

#[test]
fn captured_is_black() {
    assert_eq!(composite(&TraceResult::Captured(3), 0), gray(0));
    assert_eq!(composite(&TraceResult::Captured(0), 1), gray(0));
}

#[test]
fn disk_glow_blends_from_inner_to_outer_edge() {
    let cases: [(i64, (u8, u8, u8)); 9] = [
        (-5, (255, 236, 170)),
        (0, (255, 236, 170)),
        (1, (255, 236, 170)),
        (250_000_000, (245, 195, 131)),
        (500_000_000, (235, 154, 91)),
        (144_773_159, (250, 213, 148)),
        (999_999_999, (215, 73, 13)),
        (1_000_000_000, (214, 72, 12)),
        (2_000_000_000, (214, 72, 12)),
    ];
    for (f, (r, g, b)) in cases {
        assert_eq!(disk_glow(Scalar::from_raw(f)), Color { r, g, b }, "fraction {}", f);
        assert_eq!(
            composite(&TraceResult::DiskHit(2, Scalar::from_raw(f)), 1),
            Color { r, g, b }
        );
    }
}

#[test]
fn checkerboard_on_the_six_axes() {
    assert_eq!(sample_background(v(SCALE, 0, 0), 0), gray(204));
    assert_eq!(sample_background(v(-SCALE, 0, 0), 0), gray(51));
    assert_eq!(sample_background(v(0, SCALE, 0), 0), gray(204));
    assert_eq!(sample_background(v(0, -SCALE, 0), 0), gray(51));
    assert_eq!(sample_background(v(0, 0, SCALE), 0), gray(204));
    assert_eq!(sample_background(v(0, 0, -SCALE), 0), gray(51));
}

#[test]
fn checkerboard_in_other_directions() {
    assert_eq!(sample_background(v(0, 0, 0), 0), gray(204));
    assert_eq!(sample_background(v(SCALE, SCALE, SCALE), 0), gray(204));
    assert_eq!(sample_background(v(999_652_221, 0, -28_792_916), 0), gray(51));
    assert_eq!(sample_background(v(-11_216_133, 0, 997_374_113), 0), gray(51));
    assert_eq!(sample_background(v(3, -4, 1), 0), gray(204));
    assert_eq!(sample_background(v(-SCALE, SCALE, 0), 0), gray(51));
    assert_eq!(sample_background(v(123_456_789, 987_654_321, -555_555_555), 0), gray(204));
}

#[test]
fn checkerboard_depends_on_direction_only_up_to_scale() {
    let d = v(123_456_789, 987_654_321, -555_555_555);
    let doubled = v(2 * 123_456_789, 2 * 987_654_321, -2 * 555_555_555);
    assert_eq!(sample_background(d, 0), sample_background(doubled, 0));
}

#[test]
fn star_field_is_mostly_dark_with_some_stars() {
    let night = Color { r: 2, g: 2, b: 8 };
    assert_eq!(sample_background(v(SCALE, 0, 0), 1), night);
    assert_eq!(sample_background(v(0, 0, 0), 1), night);
    assert_eq!(sample_background(v(123_456_789, 987_654_321, -555_555_555), 1), night);
    assert_eq!(sample_background(v(500_000_000, -700_000_000, 100_000_000), 1), gray(243));
    assert_eq!(sample_background(v(SCALE, -614_000_000, -143_000_000), 1), gray(203));
    assert_eq!(sample_background(v(SCALE, 714_000_000, -927_000_000), 1), gray(179));
    assert_eq!(sample_background(v(SCALE, 512_000_000, 470_000_000), 1), gray(227));
}

#[test]
fn every_mode_but_zero_is_the_star_field() {
    let d = v(500_000_000, -700_000_000, 100_000_000);
    assert_eq!(sample_background(d, 2), gray(243));
    assert_eq!(sample_background(d, u32::MAX), gray(243));
    assert_eq!(composite(&TraceResult::Escaped(d), 7), gray(243));
    assert_eq!(composite(&TraceResult::Escaped(d), 0), gray(204));
}

#[test]
fn default_uniforms() {
    let u = Uniforms::default();
    let s = |n: i64| Scalar::from_int(n);
    assert_eq!(u.camera_pos, [s(0), s(0), s(10), s(0)]);
    assert_eq!(u.camera_forward, [s(0), s(0), s(-1), s(0)]);
    assert_eq!(u.camera_up, [s(0), s(1), s(0), s(0)]);
    assert_eq!(u.camera_right, [s(1), s(0), s(0), s(0)]);
    assert_eq!(u.resolution, [800, 600]);
    assert_eq!(u.fov, s(1));
    assert_eq!(u.num_bodies, 1);
    assert_eq!(u.max_steps, 600);
    assert_eq!(u.step_size.raw(), 100_000_000);
    assert_eq!(u.disk_enabled, 1);
    assert_eq!(u.background_mode, 0);
    assert_eq!(u.time, s(0));
    assert_eq!(u.grid_enabled, 0);
    assert_eq!(u._padding, [s(0), s(0)]);
}

fn camera() -> CameraPose {
    CameraPose {
        position: v(0, 3 * SCALE, 12 * SCALE),
        forward: v(0, -242_535_625, -970_142_500),
        up: v(0, 970_142_500, -242_535_625),
        right: v(SCALE, 0, 0),
        fov: Scalar::one(),
    }
}

fn params(mode: u32) -> RenderParams {
    RenderParams {
        max_steps: 400,
        step_size: tenth(),
        disk_enabled: true,
        background_mode: mode,
        resolution: [8, 6],
    }
}

fn frame(mode: u32) -> FrameRecord {
    pack(&Simulation::new(Preset::Single), &camera(), &params(mode), Scalar::from_milli(2500))
}

#[test]
fn pack_copies_camera_and_settings() {
    let record = frame(1);
    let u = record.uniforms;
    let cam = camera();
    let zero = Scalar::zero();
    assert_eq!(u.camera_pos, [cam.position.x, cam.position.y, cam.position.z, zero]);
    assert_eq!(u.camera_forward, [cam.forward.x, cam.forward.y, cam.forward.z, zero]);
    assert_eq!(u.camera_up, [cam.up.x, cam.up.y, cam.up.z, zero]);
    assert_eq!(u.camera_right, [cam.right.x, cam.right.y, cam.right.z, zero]);
    assert_eq!(u.resolution, [8, 6]);
    assert_eq!(u.fov, cam.fov);
    assert_eq!(u.num_bodies, 1);
    assert_eq!(u.max_steps, 400);
    assert_eq!(u.step_size, tenth());
    assert_eq!(u.disk_enabled, 1);
    assert_eq!(u.background_mode, 1);
    assert_eq!(u.time.raw(), 2_500_000_000);
    assert_eq!(u.grid_enabled, 0);
    assert_eq!(u._padding, [zero, zero]);
    assert_eq!(record.bodies, Simulation::new(Preset::Single).gpu_bodies());
}

#[test]
fn pack_three_bodies_of_eight() {
    let sim = Simulation::new(Preset::Triple);
    let record = pack(&sim, &camera(), &params(0), Scalar::zero());
    assert_eq!(record.uniforms.num_bodies, 3);
    let zeros = record.bodies.iter().filter(|b| **b == GpuBody::zeroed()).count();
    assert_eq!(zeros, 5);
    for i in 0..3 {
        assert_ne!(record.bodies[i], GpuBody::zeroed());
        assert_eq!(record.bodies[i].rs, sim.bodies[i].rs);
    }
    for i in 3..MAX_BODIES {
        assert_eq!(record.bodies[i], GpuBody::zeroed());
    }
}

#[test]
fn pack_is_deterministic() {
    assert_eq!(frame(0), frame(0));
    let sim = Simulation::new(Preset::Binary);
    assert_eq!(
        pack(&sim, &camera(), &params(1), Scalar::one()),
        pack(&sim, &camera(), &params(1), Scalar::one())
    );
}

#[test]
fn pack_disk_flag_and_body_count_limit() {
    let mut sim = Simulation::new(Preset::Single);
    for _ in 0..11 {
        sim.bodies.push(Body::new(Vec3::zero(), Vec3::zero(), Scalar::one()));
    }
    let mut p = params(0);
    p.disk_enabled = false;
    let record = pack(&sim, &camera(), &p, Scalar::zero());
    assert_eq!(record.uniforms.disk_enabled, 0);
    assert_eq!(record.uniforms.num_bodies, 8);
}

#[test]
fn pixel_rays_of_a_small_frame() {
    let u = frame(0).uniforms;
    assert_eq!(raw3(pixel_ray(&u, 0, 0)), (-667_423_812, 323_748_103, -670_621_070));
    assert_eq!(raw3(pixel_ray(&u, 7, 5)), (667_423_812, -601_246_477, -439_372_426));
    assert_eq!(raw3(pixel_ray(&u, 4, 3)), (162_221_420, -393_444_737, -904_922_897));
}

fn expected_lower_rows() -> [[(u8, u8, u8); 8]; 3] {
    [
        [
            (232, 144, 81),
            (239, 171, 107),
            (245, 193, 129),
            (248, 207, 142),
            (248, 207, 142),
            (245, 193, 129),
            (239, 171, 107),
            (232, 144, 81),
        ],
        [
            (233, 145, 82),
            (235, 153, 90),
            (236, 159, 95),
            (237, 161, 98),
            (237, 161, 98),
            (236, 159, 95),
            (235, 153, 90),
            (233, 145, 82),
        ],
        [
            (231, 137, 74),
            (231, 140, 78),
            (232, 142, 80),
            (232, 144, 81),
            (232, 144, 81),
            (232, 142, 80),
            (231, 140, 78),
            (231, 137, 74),
        ],
    ]
}

fn rgb(c: &Color) -> (u8, u8, u8) {
    (c.r, c.g, c.b)
}

#[test]
fn image_over_the_checkerboard() {
    let record = frame(0);
    let image = render_image(&record);
    assert_eq!(image.len(), 48);
    let l = (204, 204, 204);
    let d = (51, 51, 51);
    let disk = (244, 191, 127);
    let top: [[(u8, u8, u8); 8]; 3] =
        [[d, d, l, l, d, d, l, l], [d, d, l, l, d, d, l, l], [l, l, d, disk, disk, l, d, d]];
    for (y, row) in top.iter().chain(expected_lower_rows().iter()).enumerate() {
        for (x, expected) in row.iter().enumerate() {
            assert_eq!(rgb(&image[y * 8 + x]), *expected, "pixel {} {}", x, y);
        }
    }
}

#[test]
fn image_over_the_star_field() {
    let record = frame(1);
    let image = render_image(&record);
    let n = (2, 2, 8);
    let s = (219, 219, 219);
    let disk = (244, 191, 127);
    let top: [[(u8, u8, u8); 8]; 3] =
        [[n, n, n, n, n, n, n, s], [n, n, n, s, n, n, n, n], [n, n, n, disk, disk, n, n, n]];
    for (y, row) in top.iter().chain(expected_lower_rows().iter()).enumerate() {
        for (x, expected) in row.iter().enumerate() {
            assert_eq!(rgb(&image[y * 8 + x]), *expected, "pixel {} {}", x, y);
        }
    }
}

#[test]
fn rows_and_pixels_agree_with_the_image() {
    let record = frame(0);
    let image = render_image(&record);
    for y in 0..6u32 {
        let row = render_row(&record, y);
        assert_eq!(row.len(), 8);
        for x in 0..8u32 {
            assert_eq!(row[x as usize], image[(y * 8 + x) as usize]);
            assert_eq!(render_pixel(&record, x, y), row[x as usize]);
        }
    }
}

#[test]
fn empty_frames() {
    let mut record = frame(0);
    record.uniforms.resolution = [0, 6];
    assert!(render_image(&record).is_empty());
    assert!(render_row(&record, 0).is_empty());
    record.uniforms.resolution = [8, 0];
    assert!(render_image(&record).is_empty());
}

#[test]
fn the_horizon_is_a_black_silhouette() {
    let cam = CameraPose {
        position: v(0, 0, 12 * SCALE),
        forward: v(0, 0, -SCALE),
        up: v(0, SCALE, 0),
        right: v(SCALE, 0, 0),
        fov: Scalar::from_milli(200),
    };
    let p = RenderParams {
        max_steps: 400,
        step_size: tenth(),
        disk_enabled: false,
        background_mode: 0,
        resolution: [5, 5],
    };
    let record = pack(&Simulation::new(Preset::Single), &cam, &p, Scalar::zero());
    assert_eq!(render_pixel(&record, 2, 2), gray(0));
    assert_ne!(render_pixel(&record, 0, 0), gray(0));
}

#[test]
fn default_render_params() {
    let p = RenderParams::default();
    assert_eq!(p.max_steps, 200);
    assert_eq!(p.step_size.raw(), 100_000_000);
    assert!(p.disk_enabled);
    assert_eq!(p.background_mode, 1);
    assert_eq!(p.resolution, [1280, 720]);
}

#[test]
fn distant_ray_turns_no_more_than_the_weak_field_bound() {
    // The ray passes the mass at a distance above 28 throughout, so each of
    // its 1000 steps of 0.1 turns it by at most rs / (2 * 28^2) * 0.1.
    let bodies = lone_body();
    let start = v(SCALE, 0, 0);
    let clearance = Scalar::from_int(28);
    let pull_bound = Scalar::one().div(Scalar::from_int(2).mul(clearance).mul(clearance));
    assert_eq!(pull_bound.raw(), 637_755);
    let turn_bound = pull_bound.mul(tenth());
    assert_eq!(turn_bound.raw(), 63_775);
    let result = trace(v(-50 * SCALE, 0, 30 * SCALE), start, &bodies, 1, 1000, tenth(), true);
    match result {
        TraceResult::Escaped(d) => {
            let tolerance = 1000 * turn_bound.raw();
            assert!((d.x.raw() - start.x.raw()).abs() <= tolerance);
            assert!((d.y.raw() - start.y.raw()).abs() <= tolerance);
            assert!((d.z.raw() - start.z.raw()).abs() <= tolerance);
        }
        other => panic!("{:?}", other),
    }
}
