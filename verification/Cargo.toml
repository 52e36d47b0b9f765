[package]
name = "pong"
version = "0.1.0"
edition = "2021"
publish = false

[dependencies]
bytemuck = { version = "1", features = ["derive"] }
env_logger = "0.9"
log = "0.4"
pollster = "0.2"
wgpu = "0.12"
winit = "0.26"
