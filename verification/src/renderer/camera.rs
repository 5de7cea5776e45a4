//! A camera that orbits a target point, steered by pointer and keys.
//!
//! The camera is held in spherical coordinates around its target. Sines
//! and cosines of its two angles come from outside, as [`Angles`]; all the
//! rest, from the input handling to the orthonormal basis, is computed
//! here.

use crate::renderer::frame::{CameraModel, CameraPose};
use crate::scalar::{fx_mul, fx_sub, Scalar, SCALE};
use crate::vec3::{
    v3_add, v3_cross, v3_length_squared, v3_normalize, v3_scale, v3_sub, Vec3, Vec3Model,
};
use vstd::prelude::*;

verus! {

/// Radians turned for each pixel the pointer is dragged, in raw units.
pub const DRAG_SENSITIVITY: i64 = 5_000_000;

/// The smallest elevation, in raw units: one tenth of a radian off the pole.
pub const MIN_ELEVATION: i64 = 100_000_000;

/// The largest elevation, in raw units: one tenth of a radian short of pi.
pub const MAX_ELEVATION: i64 = 3_041_592_653;

/// The smallest distance from the target, in raw units.
pub const MIN_DISTANCE: i64 = 1_500_000_000;

/// The largest distance from the target, in raw units.
pub const MAX_DISTANCE: i64 = 100_000_000_000;

/// Below this squared length, in raw units, a vector counts as zero.
pub const DEGENERATE: i64 = 1_000;

/// A button of the pointer.
#[derive(Clone, Copy, Debug, PartialEq, Eq, Structural)]
pub enum MouseButton {
    Left,
    Right,
    Middle,
    Other,
}

/// Whether a button or key went down or up.
#[derive(Clone, Copy, Debug, PartialEq, Eq, Structural)]
pub enum ElementState {
    Pressed,
    Released,
}

/// How far the wheel was turned.
#[derive(Clone, Copy, Debug, PartialEq, Eq)]
pub enum MouseScrollDelta {
    /// Lines across and down.
    LineDelta(Scalar, Scalar),
    /// Pixels across and down.
    PixelDelta(Scalar, Scalar),
}

/// A key that moves the target.
#[derive(Clone, Copy, Debug, PartialEq, Eq, Structural)]
pub enum KeyCode {
    KeyW,
    KeyA,
    KeyS,
    KeyD,
}

/// Sines and cosines of the camera's two angles.
#[derive(Clone, Copy, Debug, PartialEq, Eq)]
pub struct Angles {
    pub sin_azimuth: Scalar,
    pub cos_azimuth: Scalar,
    pub sin_elevation: Scalar,
    pub cos_elevation: Scalar,
}

/// The mathematical content of [`Angles`].
pub struct AnglesModel {
    pub sin_azimuth: int,
    pub cos_azimuth: int,
    pub sin_elevation: int,
    pub cos_elevation: int,
}

impl View for Angles {
    type V = AnglesModel;

    open spec fn view(&self) -> AnglesModel {
        AnglesModel {
            sin_azimuth: self.sin_azimuth@,
            cos_azimuth: self.cos_azimuth@,
            sin_elevation: self.sin_elevation@,
            cos_elevation: self.cos_elevation@,
        }
    }
}

/// The movement keys that are held down.
#[derive(Clone, Copy, Debug, PartialEq, Eq, Structural)]
pub struct KeysPressed {
    pub w: bool,
    pub a: bool,
    pub s: bool,
    pub d: bool,
}

/// The orbiting camera and the state of its input.
#[derive(Clone, Copy, Debug, PartialEq, Eq)]
pub struct OrbitalCamera {
    /// Distance from the target.
    pub distance: Scalar,
    /// Angle around the y axis.
    pub azimuth: Scalar,
    /// Angle from the y axis.
    pub elevation: Scalar,
    /// The point the camera orbits.
    pub target: Vec3,
    /// Field of view.
    pub fov: Scalar,
    /// Whether the left button is held.
    pub is_dragging: bool,
    /// Where the pointer was last seen during the drag.
    pub last_mouse_pos: Option<(Scalar, Scalar)>,
    pub keys_pressed: KeysPressed,
}

/// The mathematical content of an [`OrbitalCamera`].
pub struct OrbitModel {
    pub distance: int,
    pub azimuth: int,
    pub elevation: int,
    pub target: Vec3Model,
    pub fov: int,
    pub is_dragging: bool,
    pub last_mouse_pos: Option<(int, int)>,
    pub keys_pressed: KeysPressed,
}

impl View for OrbitalCamera {
    type V = OrbitModel;

    open spec fn view(&self) -> OrbitModel {
        OrbitModel {
            distance: self.distance@,
            azimuth: self.azimuth@,
            elevation: self.elevation@,
            target: self.target@,
            fov: self.fov@,
            is_dragging: self.is_dragging,
            last_mouse_pos: match self.last_mouse_pos {
                Some((x, y)) => Some((x@, y@)),
                None => None,
            },
            keys_pressed: self.keys_pressed,
        }
    }
}

/// `x` brought into the range from `low` to `high`.
pub open spec fn clamp_between(x: int, low: int, high: int) -> int {
    if x < low {
        low
    } else if x > high {
        high
    } else {
        x
    }
}

/// No key held.
pub open spec fn no_keys() -> KeysPressed {
    KeysPressed { w: false, a: false, s: false, d: false }
}

/// A camera at rest at the given spherical coordinates around the origin,
/// with field of view one.
pub open spec fn new_camera(distance: int, azimuth: int, elevation: int) -> OrbitModel {
    OrbitModel {
        distance,
        azimuth,
        elevation,
        target: Vec3Model { x: 0, y: 0, z: 0 },
        fov: SCALE as int,
        is_dragging: false,
        last_mouse_pos: None,
        keys_pressed: no_keys(),
    }
}

/// Where the camera is: the target plus the distance times the unit vector
/// of the two angles.
pub open spec fn position_of(c: OrbitModel, t: AnglesModel) -> Vec3Model {
    v3_add(
        c.target,
        Vec3Model {
            x: fx_mul(fx_mul(c.distance, t.sin_elevation), t.cos_azimuth),
            y: fx_mul(c.distance, t.cos_elevation),
            z: fx_mul(fx_mul(c.distance, t.sin_elevation), t.sin_azimuth),
        },
    )
}

/// The unit vector from the camera to its target.
pub open spec fn forward_of(c: OrbitModel, t: AnglesModel) -> Vec3Model {
    v3_normalize(v3_sub(c.target, position_of(c, t)))
}

/// The world's up direction.
pub open spec fn world_up() -> Vec3Model {
    Vec3Model { x: 0, y: SCALE as int, z: 0 }
}

/// The horizontal unit vector across `forward`, before the degenerate case
/// is told apart.
pub open spec fn sideways(forward: Vec3Model) -> Vec3Model {
    v3_normalize(v3_cross(forward, world_up()))
}

/// Whether the camera looks straight up or down, so that no horizontal
/// direction stands out.
pub open spec fn looks_along_pole(forward: Vec3Model) -> bool {
    v3_length_squared(sideways(forward)) < DEGENERATE
}

/// The camera's right vector: the x axis where it looks along the pole.
pub open spec fn right_of(c: OrbitModel, t: AnglesModel) -> Vec3Model {
    let forward = forward_of(c, t);
    if looks_along_pole(forward) {
        Vec3Model { x: SCALE as int, y: 0, z: 0 }
    } else {
        sideways(forward)
    }
}

/// The camera's up vector: the z axis where it looks along the pole.
pub open spec fn up_of(c: OrbitModel, t: AnglesModel) -> Vec3Model {
    let forward = forward_of(c, t);
    if looks_along_pole(forward) {
        Vec3Model { x: 0, y: 0, z: SCALE as int }
    } else {
        v3_normalize(v3_cross(sideways(forward), forward))
    }
}

/// The camera's pose: position, basis and field of view.
pub open spec fn pose_of(c: OrbitModel, t: AnglesModel) -> CameraModel {
    CameraModel {
        position: position_of(c, t),
        forward: forward_of(c, t),
        up: up_of(c, t),
        right: right_of(c, t),
        fov: c.fov,
    }
}

/// The camera after a button went down or up: the left button starts and
/// ends a drag, and the end of a drag forgets the pointer.
pub open spec fn after_button(c: OrbitModel, button: MouseButton, state: ElementState)
    -> OrbitModel {
    if button == MouseButton::Left {
        let dragging = state == ElementState::Pressed;
        OrbitModel {
            is_dragging: dragging,
            last_mouse_pos: if dragging {
                c.last_mouse_pos
            } else {
                None
            },
            ..c
        }
    } else {
        c
    }
}

/// The camera after the pointer moved to (`x`, `y`). Outside a drag nothing
/// changes. In a drag the pointer is remembered, and from the second
/// position on the camera turns against the movement: the azimuth freely,
/// the elevation between its bounds.
pub open spec fn after_move(c: OrbitModel, x: int, y: int) -> OrbitModel {
    if !c.is_dragging {
        c
    } else {
        match c.last_mouse_pos {
            Some((lx, ly)) => OrbitModel {
                azimuth: fx_sub(c.azimuth, fx_mul(fx_sub(x, lx), DRAG_SENSITIVITY as int)),
                elevation: clamp_between(
                    fx_sub(c.elevation, fx_mul(fx_sub(y, ly), DRAG_SENSITIVITY as int)),
                    MIN_ELEVATION as int,
                    MAX_ELEVATION as int,
                ),
                last_mouse_pos: Some((x, y)),
                ..c
            },
            None => OrbitModel { last_mouse_pos: Some((x, y)), ..c },
        }
    }
}

/// The amount scrolled: lines count whole, pixels one hundredth each.
pub open spec fn scroll_amount(lines: bool, y: int) -> int {
    if lines {
        y
    } else {
        fx_mul(y, SCALE / 100)
    }
}

/// The distance after scrolling by `amount`: half of it closer, between
/// the bounds.
pub open spec fn distance_after_scroll(distance: int, amount: int) -> int {
    clamp_between(
        fx_sub(distance, fx_mul(amount, SCALE / 2)),
        MIN_DISTANCE as int,
        MAX_DISTANCE as int,
    )
}

/// The keys held after `key` went down or up.
pub open spec fn keys_after(keys: KeysPressed, key: KeyCode, state: ElementState) -> KeysPressed {
    let down = state == ElementState::Pressed;
    match key {
        KeyCode::KeyW => KeysPressed { w: down, ..keys },
        KeyCode::KeyA => KeysPressed { a: down, ..keys },
        KeyCode::KeyS => KeysPressed { s: down, ..keys },
        KeyCode::KeyD => KeysPressed { d: down, ..keys },
    }
}

/// `target` moved by `step` along `direction` if `along`, and then against
/// it if `against`.
pub open spec fn nudged(
    target: Vec3Model,
    direction: Vec3Model,
    step: int,
    along: bool,
    against: bool,
) -> Vec3Model {
    let first = if along {
        v3_add(target, v3_scale(direction, step))
    } else {
        target
    };
    if against {
        v3_sub(first, v3_scale(direction, step))
    } else {
        first
    }
}

/// The target after the time `dt` with the held keys: five units a second,
/// W and S along and against the view, D and A along and against the right
/// vector, both taken before anything moves.
pub open spec fn target_after(c: OrbitModel, t: AnglesModel, dt: int) -> Vec3Model {
    let step = fx_mul(5 * SCALE, dt);
    let forward = forward_of(c, t);
    let right = right_of(c, t);
    let k = c.keys_pressed;
    let after_ws = nudged(c.target, forward, step, k.w, k.s);
    let after_a = if k.a {
        v3_sub(after_ws, v3_scale(right, step))
    } else {
        after_ws
    };
    if k.d {
        v3_add(after_a, v3_scale(right, step))
    } else {
        after_a
    }
}

fn clamp_scalar(x: Scalar, low: i64, high: i64) -> (r: Scalar)
    requires
        i64::MIN < low <= high,
    ensures
        r@ == clamp_between(x@, low as int, high as int),
{
    if x.raw() < low {
        Scalar::from_raw(low)
    } else if x.raw() > high {
        Scalar::from_raw(high)
    } else {
        x
    }
}

impl OrbitalCamera {
    /// A camera at rest at the given spherical coordinates around the
    /// origin, with field of view one.
    pub fn new(distance: Scalar, azimuth: Scalar, elevation: Scalar) -> (c: OrbitalCamera)
        ensures
            c@ == new_camera(distance@, azimuth@, elevation@),
    {
        OrbitalCamera {
            distance,
            azimuth,
            elevation,
            target: Vec3::zero(),
            fov: Scalar::one(),
            is_dragging: false,
            last_mouse_pos: None,
            keys_pressed: KeysPressed { w: false, a: false, s: false, d: false },
        }
    }

    /// Where the camera is.
    pub fn position(&self, angles: &Angles) -> (p: Vec3)
        ensures
            p@ == position_of(self@, angles@),
    {
        let x: Scalar = self.distance.mul(angles.sin_elevation).mul(angles.cos_azimuth);
        let y: Scalar = self.distance.mul(angles.cos_elevation);
        let z: Scalar = self.distance.mul(angles.sin_elevation).mul(angles.sin_azimuth);
        self.target.add(Vec3::new(x, y, z))
    }

    /// The unit vector from the camera to its target.
    pub fn forward(&self, angles: &Angles) -> (f: Vec3)
        ensures
            f@ == forward_of(self@, angles@),
    {
        self.target.sub(self.position(angles)).normalize()
    }

    /// The camera's up vector.
    pub fn up(&self, angles: &Angles) -> (u: Vec3)
        ensures
            u@ == up_of(self@, angles@),
    {
        let forward: Vec3 = self.forward(angles);
        let world_up: Vec3 = Vec3::new(Scalar::zero(), Scalar::one(), Scalar::zero());
        let right: Vec3 = forward.cross(world_up).normalize();
        if right.length_squared().raw() < DEGENERATE {
            return Vec3::new(Scalar::zero(), Scalar::zero(), Scalar::one());
        }
        right.cross(forward).normalize()
    }

    /// The camera's right vector.
    pub fn right(&self, angles: &Angles) -> (r: Vec3)
        ensures
            r@ == right_of(self@, angles@),
    {
        let forward: Vec3 = self.forward(angles);
        let world_up: Vec3 = Vec3::new(Scalar::zero(), Scalar::one(), Scalar::zero());
        let right: Vec3 = forward.cross(world_up).normalize();
        if right.length_squared().raw() < DEGENERATE {
            return Vec3::new(Scalar::one(), Scalar::zero(), Scalar::zero());
        }
        right
    }

    /// The camera's pose, as a frame takes it.
    pub fn pose(&self, angles: &Angles) -> (p: CameraPose)
        ensures
            p@ == pose_of(self@, angles@),
    {
        CameraPose {
            position: self.position(angles),
            forward: self.forward(angles),
            up: self.up(angles),
            right: self.right(angles),
            fov: self.fov,
        }
    }

    /// Takes note of a button going down or up.
    pub fn handle_mouse_button(&mut self, button: MouseButton, state: ElementState)
        ensures
            final(self)@ == after_button(old(self)@, button, state),
    {
        if button == MouseButton::Left {
            self.is_dragging = state == ElementState::Pressed;
            if !self.is_dragging {
                self.last_mouse_pos = None;
            }
        }
    }

    /// Takes note of the pointer moving to (`x`, `y`), in pixels.
    pub fn handle_mouse_move(&mut self, x: Scalar, y: Scalar)
        ensures
            final(self)@ == after_move(old(self)@, x@, y@),
    {
        if !self.is_dragging {
            return ;
        }
        match self.last_mouse_pos {
            Some((lx, ly)) => {
                let dx: Scalar = x.sub(lx);
                let dy: Scalar = y.sub(ly);
                let sensitivity: Scalar = Scalar::from_raw(DRAG_SENSITIVITY);
                self.azimuth = self.azimuth.sub(dx.mul(sensitivity));
                self.elevation = clamp_scalar(
                    self.elevation.sub(dy.mul(sensitivity)),
                    MIN_ELEVATION,
                    MAX_ELEVATION,
                );
            },
            None => {},
        }
        self.last_mouse_pos = Some((x, y));
    }

    /// Takes note of the wheel turning: the camera moves toward its target
    /// or away from it.
    pub fn handle_scroll(&mut self, delta: MouseScrollDelta)
        ensures
            final(self)@ == (OrbitModel {
                distance: distance_after_scroll(
                    old(self)@.distance,
                    match delta {
                        MouseScrollDelta::LineDelta(_, y) => scroll_amount(true, y@),
                        MouseScrollDelta::PixelDelta(_, y) => scroll_amount(false, y@),
                    },
                ),
                ..old(self)@
            }),
    {
        let scroll: Scalar = match delta {
            MouseScrollDelta::LineDelta(_, y) => y,
            MouseScrollDelta::PixelDelta(_, y) => y.mul(Scalar::from_milli(10)),
        };
        self.distance = clamp_scalar(
            self.distance.sub(scroll.mul(Scalar::from_milli(500))),
            MIN_DISTANCE,
            MAX_DISTANCE,
        );
    }

    /// Takes note of a movement key going down or up.
    pub fn handle_key(&mut self, key: KeyCode, state: ElementState)
        ensures
            final(self)@ == (OrbitModel {
                keys_pressed: keys_after(old(self)@.keys_pressed, key, state),
                ..old(self)@
            }),
    {
        let down: bool = state == ElementState::Pressed;
        match key {
            KeyCode::KeyW => {
                self.keys_pressed.w = down;
            },
            KeyCode::KeyA => {
                self.keys_pressed.a = down;
            },
            KeyCode::KeyS => {
                self.keys_pressed.s = down;
            },
            KeyCode::KeyD => {
                self.keys_pressed.d = down;
            },
        }
    }

    /// Moves the target for the time `dt` as the held keys say.
    pub fn update(&mut self, dt: Scalar, angles: &Angles)
        ensures
            final(self)@ == (OrbitModel {
                target: target_after(old(self)@, angles@, dt@),
                ..old(self)@
            }),
    {
        let speed: Scalar = Scalar::from_int(5).mul(dt);
        let forward: Vec3 = self.forward(angles);
        let right: Vec3 = self.right(angles);
        if self.keys_pressed.w {
            self.target = self.target.add(forward.scale(speed));
        }
        if self.keys_pressed.s {
            self.target = self.target.sub(forward.scale(speed));
        }
        if self.keys_pressed.a {
            self.target = self.target.sub(right.scale(speed));
        }
        if self.keys_pressed.d {
            self.target = self.target.add(right.scale(speed));
        }
    }
}

} // verus!
