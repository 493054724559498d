[package]
name = "gpu_histogram"
version = "0.1.0"
edition = "2021"
publish = false

[dependencies]
wgpu = "*"
pollster = "*"
bytemuck = "*"
rand = "*"
env_logger = "*"
