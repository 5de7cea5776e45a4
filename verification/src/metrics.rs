//! Closed-form quantities of the metric around a single mass.

pub mod schwarzschild;
