[package]
name = "gpu_shell"
version = "0.1.0"
edition = "2021"
publish = false

[dependencies]
wgpu = { version = "0.20", default-features = false }
winit = { version = "0.30", default-features = false, features = ["x11", "rwh_06"] }
log = "0.4"
env_logger = { version = "0.11", default-features = false }
pollster = "0.3"
