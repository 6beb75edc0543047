[package]
name = "voxel_capture"
version = "0.1.0"
edition = "2021"
publish = false

[dependencies]
anyhow = "1"
bytemuck = { version = "1", features = ["derive"] }
env_logger = "0.11"
flume = "0.11"
glam = "0.25"
image = { version = "0.24", default-features = false, features = ["png"] }
noise = "0.8"
pollster = "0.3"
serde = { version = "1", features = ["derive"] }
serde_json = "1"
wgpu = { version = "0.19", default-features = false, features = ["wgsl"] }
