[package]
name = "spacetime_playground"
version = "0.1.0"
edition = "2021"
publish = false

[dependencies]
bytemuck = { version = "1", features = ["derive"] }
egui = "0.31"
egui-wgpu = "0.31"
egui-winit = { version = "0.31", default-features = false }
env_logger = { version = "0.11", default-features = false }
glam = "0.29"
log = "0.4"
png = "0.17"
pollster = "0.4"
wgpu = "24"
winit = "0.30"
