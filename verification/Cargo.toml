[package]
name = "elements"
version = "0.1.0"
edition = "2021"
publish = false

[dependencies]
vulkano = "0.35"
winit = "0.30"
glam = { version = "*", features = ["bytemuck"] }
anyhow = "1"
tracing = "0.1"
tracing-subscriber = "0.3"
image = { version = "0.25", default-features = false, features = ["png", "jpeg"] }
gltf = "1.4"
assets_manager = { version = "*", features = ["gltf"] }
