[package]
name = "eatcoffee"
version = "0.1.0"
edition = "2021"
publish = false

[dependencies]
wgpu = "0.15"
winit = "0.28"
pollster = "0.3"
anyhow = "1"
log = "0.4"
env_logger = "0.10"
bytemuck = { version = "1", features = ["derive"] }
thiserror = "1"
cgmath = "0.18"
async-executor = "1"
