[package]
name = "autonomy"
version = "0.1.0"
edition = "2021"
publish = false

[dependencies]
bytemuck = "1"
cgmath = "0.18"
env_logger = "0.8"
futures = "0.3"
log = "0.4"
profiling = "1"
wgpu = "0.9"
winit = "0.25"
