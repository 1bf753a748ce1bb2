[package]
name = "frame_scheduler"
version = "0.1.0"
edition = "2021"
publish = false

[dependencies]
vulkano = "0.29"
vulkano-win = "0.29"
vulkano-shaders = "0.29"
winit = "0.26"
cgmath = "0.18"
bytemuck = { version = "1", features = ["derive"] }
rand = "0.8"
