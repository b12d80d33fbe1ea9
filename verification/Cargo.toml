[package]
name = "pluey"
version = "0.1.0"
edition = "2021"
publish = false

[dependencies]
anyhow = "1"
bytemuck = { version = "1", features = ["derive"] }
image = "0.25"
pollster = "0.4"
wgpu = "*"
winit = "0.30"
