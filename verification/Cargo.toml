[package]
name = "triangle_demo"
version = "0.1.0"
edition = "2021"
publish = false

[dependencies]
env_logger = "0.11"
pollster = "0.3"
wgpu = "23"
winit = "0.30"
