//! From the fate of a ray to the colour of its pixel.
//!
//! A captured ray is black, the silhouette of the horizon. A ray that hit
//! a disk glows, from pale yellow at the inner edge to deep orange at the
//! outer edge. An escaped ray shows the background in its final direction,
//! looked up on the faces of a cube around the scene: a checkerboard or a
//! sparse field of stars.

use crate::renderer::tracer::{TraceModel, TraceResult};
use crate::scalar::{fx_div, magnitude, Scalar, SCALE};
use crate::vec3::{Vec3, Vec3Model};
use vstd::prelude::*;

verus! {

/// An opaque colour, eight bits a channel.
#[derive(Debug, Copy, Clone, PartialEq, Eq)]
pub struct Color {
    pub r: u8,
    pub g: u8,
    pub b: u8,
}

/// The mathematical content of a [`Color`].
pub struct ColorModel {
    pub r: int,
    pub g: int,
    pub b: int,
}

impl View for Color {
    type V = ColorModel;

    open spec fn view(&self) -> ColorModel {
        ColorModel { r: self.r as int, g: self.g as int, b: self.b as int }
    }
}

/// Checkerboard squares along one edge of a cube face.
pub const CHECKER_CELLS: u64 = 4;

/// Star cells along one edge of a cube face.
pub const STAR_CELLS: u64 = 64;

/// Black.
pub open spec fn black() -> ColorModel {
    ColorModel { r: 0, g: 0, b: 0 }
}

/// `f` brought into the range from zero to one.
pub open spec fn unit_fraction(f: int) -> int {
    if f < 0 {
        0
    } else if f > SCALE {
        SCALE as int
    } else {
        f
    }
}

/// The channel value the fraction `f`, between zero and one, of the way
/// from `a` to `b`, rounded toward `a`.
pub open spec fn mix(a: int, b: int, f: int) -> int {
    if b >= a {
        a + ((b - a) * f) / (SCALE as int)
    } else {
        a - ((a - b) * f) / (SCALE as int)
    }
}

/// The glow of a disk at radial fraction `f`: pale yellow (255, 236, 170)
/// at the inner edge, deep orange (214, 72, 12) at the outer edge, and a
/// straight blend between them.
pub open spec fn disk_color(f: int) -> ColorModel {
    let t = unit_fraction(f);
    ColorModel { r: mix(255, 214, t), g: mix(236, 72, t), b: mix(170, 12, t) }
}

/// The face of the surrounding cube that the direction `d` points at: 0 and
/// 1 for plus and minus x, 2 and 3 for y, 4 and 5 for z. The axis of the
/// largest component wins, x before y before z.
pub open spec fn cube_face(d: Vec3Model) -> int {
    let ax = magnitude(d.x);
    let ay = magnitude(d.y);
    let az = magnitude(d.z);
    if ax >= ay && ax >= az {
        if d.x >= 0 {
            0
        } else {
            1
        }
    } else if ay >= az {
        if d.y >= 0 {
            2
        } else {
            3
        }
    } else {
        if d.z >= 0 {
            4
        } else {
            5
        }
    }
}

/// The two coordinates, each between minus one and one, of the point where
/// the direction `d` meets its face of the cube: the two minor components
/// divided by the size of the major one.
pub open spec fn cube_coords(d: Vec3Model) -> (int, int) {
    let face = cube_face(d);
    if face < 2 {
        (fx_div(d.y, magnitude(d.x)), fx_div(d.z, magnitude(d.x)))
    } else if face < 4 {
        (fx_div(d.x, magnitude(d.y)), fx_div(d.z, magnitude(d.y)))
    } else {
        (fx_div(d.x, magnitude(d.z)), fx_div(d.y, magnitude(d.z)))
    }
}

/// The cell, counted from zero, that the face coordinate `u` falls in when
/// the edge from minus one to one is cut into `cells` equal parts.
pub open spec fn cell_of(u: int, cells: int) -> int {
    let shifted = if u < -SCALE {
        0
    } else if u > SCALE {
        2 * SCALE
    } else {
        u + SCALE
    };
    (shifted * cells) / (2 * SCALE)
}

/// The checkerboard in direction `d`: light (204) and dark (51) grey
/// squares, four to an edge of each cube face.
pub open spec fn checkerboard(d: Vec3Model) -> ColorModel {
    let (u, v) = cube_coords(d);
    let parity = (cube_face(d) + cell_of(u, CHECKER_CELLS as int) + cell_of(
        v,
        CHECKER_CELLS as int,
    )) % 2;
    if parity == 0 {
        ColorModel { r: 204, g: 204, b: 204 }
    } else {
        ColorModel { r: 51, g: 51, b: 51 }
    }
}

/// The number of the star cell in direction `d`, over all six faces.
pub open spec fn star_cell(d: Vec3Model) -> int {
    let (u, v) = cube_coords(d);
    let side = STAR_CELLS as int + 1;
    (cube_face(d) * side + cell_of(u, STAR_CELLS as int)) * side + cell_of(v, STAR_CELLS as int)
}

/// A number below 1013 scattered over the star cells.
pub open spec fn star_hash(cell: int) -> int {
    (cell * 7919 + 104_729) % 1013
}

/// The star field in direction `d`: a cell whose hash falls below 12 holds
/// a grey star, the brighter the larger the hash; the others are night sky.
pub open spec fn star_field(d: Vec3Model) -> ColorModel {
    let h = star_hash(star_cell(d));
    if h < 12 {
        ColorModel { r: 155 + 8 * h, g: 155 + 8 * h, b: 155 + 8 * h }
    } else {
        ColorModel { r: 2, g: 2, b: 8 }
    }
}

/// The background in direction `d`: the checkerboard for mode zero, the
/// star field for every other mode.
pub open spec fn background(d: Vec3Model, mode: int) -> ColorModel {
    if mode == 0 {
        checkerboard(d)
    } else {
        star_field(d)
    }
}

/// The colour of a pixel whose ray ended as `fate`.
pub open spec fn spec_composite(fate: TraceModel, mode: int) -> ColorModel {
    match fate {
        TraceModel::Captured(_) => black(),
        TraceModel::DiskHit(_, f) => disk_color(f),
        TraceModel::Escaped(d) => background(d, mode),
    }
}

fn mix_channel(a: u8, b: u8, f: u64) -> (c: u8)
    requires
        f <= SCALE,
    ensures
        c as int == mix(a as int, b as int, f as int),
{
    if b >= a {
        let span: u64 = (b - a) as u64;
        assert(span * f <= 255 * 1_000_000_000) by (nonlinear_arith)
            requires
                span <= 255,
                f <= 1_000_000_000,
        ;
        let step: u64 = (span * f) / 1_000_000_000;
        assert(step <= span) by (nonlinear_arith)
            requires
                step == (span * f) / 1_000_000_000,
                f <= 1_000_000_000,
                0 <= span,
        ;
        a + step as u8
    } else {
        let span: u64 = (a - b) as u64;
        assert(span * f <= 255 * 1_000_000_000) by (nonlinear_arith)
            requires
                span <= 255,
                f <= 1_000_000_000,
        ;
        let step: u64 = (span * f) / 1_000_000_000;
        assert(step <= span) by (nonlinear_arith)
            requires
                step == (span * f) / 1_000_000_000,
                f <= 1_000_000_000,
                0 <= span,
        ;
        a - step as u8
    }
}

/// The glow of a disk at the given radial fraction.
pub fn disk_glow(radial_fraction: Scalar) -> (c: Color)
    ensures
        c@ == disk_color(radial_fraction@),
{
    let raw: i64 = radial_fraction.raw();
    let t: u64 = if raw < 0 {
        0
    } else if raw > SCALE {
        SCALE as u64
    } else {
        raw as u64
    };
    Color { r: mix_channel(255, 214, t), g: mix_channel(236, 72, t), b: mix_channel(170, 12, t) }
}

fn face_of(d: Vec3) -> (r: (u64, Scalar, Scalar))
    ensures
        r.0 as int == cube_face(d@),
        r.0 < 6,
        (r.1@, r.2@) == cube_coords(d@),
{
    let ax: Scalar = d.x.abs();
    let ay: Scalar = d.y.abs();
    let az: Scalar = d.z.abs();
    if ax.raw() >= ay.raw() && ax.raw() >= az.raw() {
        let face: u64 = if d.x.raw() >= 0 {
            0
        } else {
            1
        };
        (face, d.y.div(ax), d.z.div(ax))
    } else if ay.raw() >= az.raw() {
        let face: u64 = if d.y.raw() >= 0 {
            2
        } else {
            3
        };
        (face, d.x.div(ay), d.z.div(ay))
    } else {
        let face: u64 = if d.z.raw() >= 0 {
            4
        } else {
            5
        };
        (face, d.x.div(az), d.y.div(az))
    }
}

fn cell(u: Scalar, cells: u64) -> (c: u64)
    requires
        cells <= 1024,
    ensures
        c as int == cell_of(u@, cells as int),
        c <= cells,
{
    let raw: i64 = u.raw();
    let shifted: u64 = if raw < -SCALE {
        0
    } else if raw > SCALE {
        2_000_000_000
    } else {
        (raw + SCALE) as u64
    };
    assert(shifted * cells <= 2_000_000_000 * 1024) by (nonlinear_arith)
        requires
            shifted <= 2_000_000_000,
            cells <= 1024,
    ;
    let c: u64 = (shifted * cells) / 2_000_000_000;
    assert(c <= cells) by (nonlinear_arith)
        requires
            c == (shifted * cells) / 2_000_000_000,
            shifted <= 2_000_000_000,
            0 <= cells,
    ;
    c
}

/// The background in the given direction: the checkerboard for mode zero,
/// the star field for every other mode.
pub fn sample_background(direction: Vec3, background_mode: u32) -> (c: Color)
    ensures
        c@ == background(direction@, background_mode as int),
{
    let (face, u, v) = face_of(direction);
    if background_mode == 0 {
        let parity: u64 = (face + cell(u, CHECKER_CELLS) + cell(v, CHECKER_CELLS)) % 2;
        if parity == 0 {
            Color { r: 204, g: 204, b: 204 }
        } else {
            Color { r: 51, g: 51, b: 51 }
        }
    } else {
        let side: u64 = STAR_CELLS + 1;
        let index: u64 = (face * side + cell(u, STAR_CELLS)) * side + cell(v, STAR_CELLS);
        let h: u64 = (index * 7919 + 104_729) % 1013;
        if h < 12 {
            let level: u8 = (155 + 8 * h) as u8;
            Color { r: level, g: level, b: level }
        } else {
            Color { r: 2, g: 2, b: 8 }
        }
    }
}

/// The colour of a pixel whose ray ended as `result`.
pub fn composite(result: &TraceResult, background_mode: u32) -> (c: Color)
    ensures
        c@ == spec_composite(result@, background_mode as int),
{
    match *result {
        TraceResult::Captured(_) => Color { r: 0, g: 0, b: 0 },
        TraceResult::DiskHit(_, f) => disk_glow(f),
        TraceResult::Escaped(d) => sample_background(d, background_mode),
    }
}

} // verus!
