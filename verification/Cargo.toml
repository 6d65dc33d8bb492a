[package]
name = "egor"
version = "0.1.0"
edition = "2021"
publish = false

[dependencies]
winit = { version = "0.30", default-features = false, features = ["x11", "rwh_06"] }
wgpu = "*"
glam = "*"
lyon = "*"
glyphon = "*"
color = "*"
bytemuck = { version = "*", features = ["derive"] }
pollster = "*"
image = { version = "*", default-features = false, features = ["png"] }
serde = { version = "1", features = ["derive"] }
serde_json = "1"
