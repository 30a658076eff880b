[package]
name = "render_assembly"
version = "0.1.0"
edition = "2021"
publish = false

[dependencies]
bytemuck = { version = "1", features = ["derive"] }
env_logger = "0.10"
glam = "0.24"
log = "0.4"
wgpu = "0.16"
winit = "0.28"
