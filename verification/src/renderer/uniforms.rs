//! The fixed-layout block of camera and render parameters of one frame.

use crate::scalar::{Scalar, SCALE};
use crate::vec3::Vec3Model;
use vstd::prelude::*;

verus! {

/// Camera and render parameters as they cross into the per-pixel stage.
/// Field order is part of the format.
#[derive(Debug, Copy, Clone, PartialEq, Eq)]
pub struct Uniforms {
    pub camera_pos: [Scalar; 4],
    pub camera_forward: [Scalar; 4],
    pub camera_up: [Scalar; 4],
    pub camera_right: [Scalar; 4],
    /// Width and height in pixels.
    pub resolution: [u32; 2],
    pub fov: Scalar,
    pub num_bodies: u32,
    pub max_steps: u32,
    pub step_size: Scalar,
    /// One when disks are drawn, else zero.
    pub disk_enabled: u32,
    /// Zero for the checkerboard, one for the star field.
    pub background_mode: u32,
    pub time: Scalar,
    pub grid_enabled: u32,
    pub _padding: [Scalar; 2],
}

/// The raw values of a sequence of scalars, in order.
pub open spec fn raws(a: Seq<Scalar>) -> Seq<int> {
    Seq::new(a.len(), |i: int| a[i]@)
}

/// The first three of four components, as a vector.
pub open spec fn xyz(a: Seq<int>) -> Vec3Model {
    Vec3Model { x: a[0], y: a[1], z: a[2] }
}

/// A vector padded with a zero fourth component.
pub open spec fn padded(v: Vec3Model) -> Seq<int> {
    seq![v.x, v.y, v.z, 0]
}

/// The mathematical content of [`Uniforms`].
pub struct UniformsModel {
    pub camera_pos: Seq<int>,
    pub camera_forward: Seq<int>,
    pub camera_up: Seq<int>,
    pub camera_right: Seq<int>,
    pub width: int,
    pub height: int,
    pub fov: int,
    pub num_bodies: int,
    pub max_steps: int,
    pub step_size: int,
    pub disk_enabled: int,
    pub background_mode: int,
    pub time: int,
    pub grid_enabled: int,
    pub padding: Seq<int>,
}

impl View for Uniforms {
    type V = UniformsModel;

    open spec fn view(&self) -> UniformsModel {
        UniformsModel {
            camera_pos: raws(self.camera_pos@),
            camera_forward: raws(self.camera_forward@),
            camera_up: raws(self.camera_up@),
            camera_right: raws(self.camera_right@),
            width: self.resolution[0] as int,
            height: self.resolution[1] as int,
            fov: self.fov@,
            num_bodies: self.num_bodies as int,
            max_steps: self.max_steps as int,
            step_size: self.step_size@,
            disk_enabled: self.disk_enabled as int,
            background_mode: self.background_mode as int,
            time: self.time@,
            grid_enabled: self.grid_enabled as int,
            padding: raws(self._padding@),
        }
    }
}

/// The parameters of a frame before anything is known of the scene: a
/// camera ten units up the z axis looking back at the origin, 800 by 600
/// pixels, one body, 600 steps of one tenth, disks on, checkerboard.
pub open spec fn default_uniforms() -> UniformsModel {
    UniformsModel {
        camera_pos: seq![0, 0, 10 * SCALE, 0],
        camera_forward: seq![0, 0, -SCALE, 0],
        camera_up: seq![0, SCALE as int, 0, 0],
        camera_right: seq![SCALE as int, 0, 0, 0],
        width: 800,
        height: 600,
        fov: SCALE as int,
        num_bodies: 1,
        max_steps: 600,
        step_size: SCALE / 10,
        disk_enabled: 1,
        background_mode: 0,
        time: 0,
        grid_enabled: 0,
        padding: seq![0, 0],
    }
}

impl Default for Uniforms {
    fn default() -> (u: Uniforms)
        ensures
            u@ == default_uniforms(),
    {
        let zero: Scalar = Scalar::zero();
        let one: Scalar = Scalar::one();
        let u = Uniforms {
            camera_pos: [zero, zero, Scalar::from_int(10), zero],
            camera_forward: [zero, zero, Scalar::from_int(-1), zero],
            camera_up: [zero, one, zero, zero],
            camera_right: [one, zero, zero, zero],
            resolution: [800, 600],
            fov: one,
            num_bodies: 1,
            max_steps: 600,
            step_size: Scalar::from_milli(100),
            disk_enabled: 1,
            background_mode: 0,
            time: zero,
            grid_enabled: 0,
            _padding: [zero, zero],
        };
        assert(u@.camera_pos =~= default_uniforms().camera_pos);
        assert(u@.camera_forward =~= default_uniforms().camera_forward);
        assert(u@.camera_up =~= default_uniforms().camera_up);
        assert(u@.camera_right =~= default_uniforms().camera_right);
        assert(u@.padding =~= default_uniforms().padding);
        u
    }
}

} // verus!
