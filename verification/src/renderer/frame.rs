//! Packing of the scene into the record that one frame is rendered from.
//!
//! Every pixel of a frame reads the same record, so a frame never mixes two
//! states of the simulation.

use crate::renderer::uniforms::{padded, raws, Uniforms, UniformsModel};
use crate::scalar::{Scalar, SCALE};
use crate::simulation::{
    pack_bodies, record_models, GpuBody, Simulation, SimulationModel, MAX_BODIES,
};
use crate::vec3::{Vec3, Vec3Model};
use vstd::prelude::*;

verus! {

/// Where the camera is and how it is turned: a position, an orthonormal
/// basis and a field of view.
#[derive(Debug, Copy, Clone, PartialEq, Eq)]
pub struct CameraPose {
    pub position: Vec3,
    pub forward: Vec3,
    pub up: Vec3,
    pub right: Vec3,
    pub fov: Scalar,
}

/// The settings of the ray marcher and of the image.
#[derive(Debug, Copy, Clone, PartialEq, Eq)]
pub struct RenderParams {
    /// Bound on the number of integration steps of one ray.
    pub max_steps: u32,
    /// Length of one integration step.
    pub step_size: Scalar,
    pub disk_enabled: bool,
    /// Zero for the checkerboard, one for the star field.
    pub background_mode: u32,
    /// Width and height in pixels.
    pub resolution: [u32; 2],
}

/// The smallest step bound that the parameter panel offers.
pub const MIN_STEPS: u32 = 50;

/// The largest step bound that the parameter panel offers.
pub const MAX_STEPS: u32 = 2000;

impl Default for RenderParams {
    /// The settings of a fresh window: 200 steps of one tenth, disks drawn,
    /// star field, 1280 by 720 pixels.
    fn default() -> (p: RenderParams)
        ensures
            p@ == (ParamsModel {
                max_steps: 200,
                step_size: SCALE / 10,
                disk_enabled: true,
                background_mode: 1,
                width: 1280,
                height: 720,
            }),
    {
        RenderParams {
            max_steps: 200,
            step_size: Scalar::from_milli(100),
            disk_enabled: true,
            background_mode: 1,
            resolution: [1280, 720],
        }
    }
}

/// All that the per-pixel stage reads of one frame.
#[derive(Debug, Copy, Clone, PartialEq, Eq)]
pub struct FrameRecord {
    pub uniforms: Uniforms,
    pub bodies: [GpuBody; MAX_BODIES],
}

/// The mathematical content of a [`CameraPose`].
pub struct CameraModel {
    pub position: Vec3Model,
    pub forward: Vec3Model,
    pub up: Vec3Model,
    pub right: Vec3Model,
    pub fov: int,
}

impl View for CameraPose {
    type V = CameraModel;

    open spec fn view(&self) -> CameraModel {
        CameraModel {
            position: self.position@,
            forward: self.forward@,
            up: self.up@,
            right: self.right@,
            fov: self.fov@,
        }
    }
}

/// The mathematical content of [`RenderParams`].
pub struct ParamsModel {
    pub max_steps: int,
    pub step_size: int,
    pub disk_enabled: bool,
    pub background_mode: int,
    pub width: int,
    pub height: int,
}

impl View for RenderParams {
    type V = ParamsModel;

    open spec fn view(&self) -> ParamsModel {
        ParamsModel {
            max_steps: self.max_steps as int,
            step_size: self.step_size@,
            disk_enabled: self.disk_enabled,
            background_mode: self.background_mode as int,
            width: self.resolution[0] as int,
            height: self.resolution[1] as int,
        }
    }
}

/// The number of bodies that a frame carries: all of them, up to capacity.
pub open spec fn packed_count(bodies: int) -> int {
    if bodies <= MAX_BODIES {
        bodies
    } else {
        MAX_BODIES as int
    }
}

/// The parameter block of a frame: the camera's vectors padded to four
/// components, the render settings, the number of bodies packed and the
/// time; the grid is off.
pub open spec fn pack_uniforms(
    sim: SimulationModel,
    camera: CameraModel,
    params: ParamsModel,
    time: int,
) -> UniformsModel {
    UniformsModel {
        camera_pos: padded(camera.position),
        camera_forward: padded(camera.forward),
        camera_up: padded(camera.up),
        camera_right: padded(camera.right),
        width: params.width,
        height: params.height,
        fov: camera.fov,
        num_bodies: packed_count(sim.bodies.len() as int),
        max_steps: params.max_steps,
        step_size: params.step_size,
        disk_enabled: if params.disk_enabled {
            1
        } else {
            0
        },
        background_mode: params.background_mode,
        time,
        grid_enabled: 0,
        padding: seq![0, 0],
    }
}

fn pad(v: Vec3) -> (a: [Scalar; 4])
    ensures
        raws(a@) == padded(v@),
{
    let a: [Scalar; 4] = [v.x, v.y, v.z, Scalar::zero()];
    assert(raws(a@) =~= padded(v@));
    a
}

/// Packs the bodies, the camera and the render settings into the record of
/// one frame. The same inputs always give the same record.
pub fn pack(sim: &Simulation, camera: &CameraPose, params: &RenderParams, time: Scalar) -> (record:
    FrameRecord)
    ensures
        record.uniforms@ == pack_uniforms(sim@, camera@, params@, time@),
        record_models(record.bodies@) == pack_bodies(sim@.bodies),
{
    let count: usize = sim.bodies.len();
    let num_bodies: u32 = if count <= MAX_BODIES {
        count as u32
    } else {
        MAX_BODIES as u32
    };
    let zero: Scalar = Scalar::zero();
    let padding: [Scalar; 2] = [zero, zero];
    let uniforms = Uniforms {
        camera_pos: pad(camera.position),
        camera_forward: pad(camera.forward),
        camera_up: pad(camera.up),
        camera_right: pad(camera.right),
        resolution: params.resolution,
        fov: camera.fov,
        num_bodies,
        max_steps: params.max_steps,
        step_size: params.step_size,
        disk_enabled: if params.disk_enabled {
            1
        } else {
            0
        },
        background_mode: params.background_mode,
        time,
        grid_enabled: 0,
        _padding: padding,
    };
    assert(uniforms@.padding =~= seq![0, 0]);
    FrameRecord { uniforms, bodies: sim.gpu_bodies() }
}

} // verus!
