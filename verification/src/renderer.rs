//! From a frame record to an image: the record itself, the ray marcher,
//! the compositor and the per-pixel map.

pub mod camera;
pub mod compositor;
pub mod frame;
pub mod image;
pub mod tracer;
pub mod uniforms;
pub mod weak_field;
