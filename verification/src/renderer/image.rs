//! The per-pixel map from a frame record to an image.
//!
//! Each pixel is computed from the record alone, so the pixels of a frame
//! may be evaluated in any order, or side by side.

use crate::renderer::compositor::{composite, spec_composite, Color, ColorModel};
use crate::renderer::frame::FrameRecord;
use crate::renderer::tracer::{spec_trace, trace, TraceResult};
use crate::renderer::uniforms::{raws, xyz, Uniforms, UniformsModel};
use crate::scalar::{clamp, fx_div, fx_mul, fx_sub, Scalar, SCALE};
use crate::simulation::{record_models, GpuBodyModel};
use crate::vec3::{v3_add, v3_normalize, v3_scale, Vec3, Vec3Model};
use vstd::arithmetic::div_mod::lemma_fundamental_div_mod_converse;
use vstd::prelude::*;

verus! {

/// The whole number `n` as a fixed-point number, saturated.
pub open spec fn fx_int(n: int) -> int {
    clamp(n * SCALE)
}

/// The direction of the ray through the centre of pixel (`px`, `py`),
/// counted from the top left: the camera's forward vector, plus its right
/// vector times the horizontal offset and its up vector times the vertical
/// offset, normalised. The offsets run from minus one to one across the
/// image, times the field of view, the horizontal one also times the
/// aspect ratio.
pub open spec fn pixel_direction(u: UniformsModel, px: int, py: int) -> Vec3Model {
    let sx = fx_sub(fx_div(fx_int(2 * px + 1), fx_int(u.width)), SCALE as int);
    let sy = fx_sub(SCALE as int, fx_div(fx_int(2 * py + 1), fx_int(u.height)));
    let aspect = fx_div(fx_int(u.width), fx_int(u.height));
    let kx = fx_mul(fx_mul(sx, aspect), u.fov);
    let ky = fx_mul(sy, u.fov);
    v3_normalize(
        v3_add(
            v3_add(xyz(u.camera_forward), v3_scale(xyz(u.camera_right), kx)),
            v3_scale(xyz(u.camera_up), ky),
        ),
    )
}

/// The colour of pixel (`px`, `py`): its ray is marched from the camera's
/// position and the ray's fate is composited over the chosen background.
pub open spec fn pixel_color(u: UniformsModel, bodies: Seq<GpuBodyModel>, px: int, py: int)
    -> ColorModel {
    spec_composite(
        spec_trace(
            xyz(u.camera_pos),
            pixel_direction(u, px, py),
            bodies,
            u.num_bodies,
            u.max_steps as nat,
            u.step_size,
            u.disk_enabled != 0,
        ),
        u.background_mode,
    )
}

fn first_three(a: &[Scalar; 4]) -> (v: Vec3)
    ensures
        v@ == xyz(raws(a@)),
{
    Vec3::new(a[0], a[1], a[2])
}

/// The direction of the ray through the centre of a pixel.
pub fn pixel_ray(uniforms: &Uniforms, px: u32, py: u32) -> (d: Vec3)
    ensures
        d@ == pixel_direction(uniforms@, px as int, py as int),
{
    let one: Scalar = Scalar::one();
    let width: Scalar = Scalar::from_int(uniforms.resolution[0] as i64);
    let height: Scalar = Scalar::from_int(uniforms.resolution[1] as i64);
    let sx: Scalar = Scalar::from_int(2 * (px as i64) + 1).div(width).sub(one);
    let sy: Scalar = one.sub(Scalar::from_int(2 * (py as i64) + 1).div(height));
    let aspect: Scalar = width.div(height);
    let kx: Scalar = sx.mul(aspect).mul(uniforms.fov);
    let ky: Scalar = sy.mul(uniforms.fov);
    let forward: Vec3 = first_three(&uniforms.camera_forward);
    let right: Vec3 = first_three(&uniforms.camera_right);
    let up: Vec3 = first_three(&uniforms.camera_up);
    forward.add(right.scale(kx)).add(up.scale(ky)).normalize()
}

/// The colour of one pixel of a frame.
pub fn render_pixel(record: &FrameRecord, px: u32, py: u32) -> (c: Color)
    ensures
        c@ == pixel_color(record.uniforms@, record_models(record.bodies@), px as int, py as int),
{
    let u: &Uniforms = &record.uniforms;
    let fate: TraceResult = trace(
        first_three(&u.camera_pos),
        pixel_ray(u, px, py),
        &record.bodies,
        u.num_bodies,
        u.max_steps,
        u.step_size,
        u.disk_enabled != 0,
    );
    composite(&fate, u.background_mode)
}

/// One row of a frame, left to right.
pub fn render_row(record: &FrameRecord, py: u32) -> (row: Vec<Color>)
    ensures
        row.len() == record.uniforms@.width,
        forall|x: int|
            0 <= x < row.len() ==> (#[trigger] row[x])@ == pixel_color(
                record.uniforms@,
                record_models(record.bodies@),
                x,
                py as int,
            ),
{
    let width: u32 = record.uniforms.resolution[0];
    let mut row: Vec<Color> = Vec::new();
    let mut px: u32 = 0;
    while px < width
        invariant
            px <= width,
            width == record.uniforms.resolution[0],
            row.len() == px,
            forall|x: int|
                0 <= x < row.len() ==> (#[trigger] row[x])@ == pixel_color(
                    record.uniforms@,
                    record_models(record.bodies@),
                    x,
                    py as int,
                ),
        decreases width - px,
    {
        row.push(render_pixel(record, px, py));
        px += 1;
    }
    row
}

/// The whole frame, row after row from the top.
pub fn render_image(record: &FrameRecord) -> (image: Vec<Color>)
    ensures
        image.len() == record.uniforms@.width * record.uniforms@.height,
        forall|i: int|
            0 <= i < image.len() ==> (#[trigger] image[i])@ == pixel_color(
                record.uniforms@,
                record_models(record.bodies@),
                i % record.uniforms@.width,
                i / record.uniforms@.width,
            ),
{
    let width: u32 = record.uniforms.resolution[0];
    let height: u32 = record.uniforms.resolution[1];
    let mut image: Vec<Color> = Vec::new();
    let mut py: u32 = 0;
    while py < height
        invariant
            py <= height,
            width == record.uniforms.resolution[0],
            height == record.uniforms.resolution[1],
            image.len() == py * width,
            forall|i: int|
                0 <= i < image.len() ==> (#[trigger] image[i])@ == pixel_color(
                    record.uniforms@,
                    record_models(record.bodies@),
                    i % (width as int),
                    i / (width as int),
                ),
        decreases height - py,
    {
        let mut px: u32 = 0;
        while px < width
            invariant
                px <= width,
                py < height,
                width == record.uniforms.resolution[0],
                image.len() == py * width + px,
                forall|i: int|
                    0 <= i < image.len() ==> (#[trigger] image[i])@ == pixel_color(
                        record.uniforms@,
                        record_models(record.bodies@),
                        i % (width as int),
                        i / (width as int),
                    ),
            decreases width - px,
        {
            proof {
                lemma_fundamental_div_mod_converse(
                    py * width + px,
                    width as int,
                    py as int,
                    px as int,
                );
            }
            image.push(render_pixel(record, px, py));
            px += 1;
        }
        assert(py * width + width == (py + 1) * width) by (nonlinear_arith);
        py += 1;
    }
    assert(height * width == width * height) by (nonlinear_arith);
    image
}

} // verus!
