//! Numerical engine for rendering light bending around point masses:
//! a leapfrog orbit integrator, a fixed-capacity frame record, a geodesic
//! ray marcher and a compositor, all over decimal fixed-point arithmetic.

pub mod isqrt;
pub mod scalar;
pub mod vec3;
pub mod simulation;
pub mod symmetry;
pub mod metrics;
pub mod renderer;
pub mod text;
pub mod screenshot;
pub mod ui;
