[package]
name = "quad_renderer"
version = "0.1.0"
edition = "2021"
publish = false

[dependencies]
wgpu = { version = "=25.0.2", default-features = false, features = ["wgsl", "vulkan", "gles"] }
wgpu-types = "=25.0.0"
winit = { version = "=0.30.13", default-features = false, features = ["rwh_06", "x11"] }
pollster = "=0.3.0"
