[package]
name = "framepipe"
version = "0.1.0"
edition = "2021"
publish = false

[dependencies]
bytemuck = { version = "1", features = ["derive"] }
pollster = "0.4"
tracing = "0.1"
tracing-subscriber = "0.3"
wgpu = "25"
winit = "0.30"
