[package]
name = "horizon"
version = "0.1.0"
edition = "2021"
publish = false

[dependencies]
anyhow = "=1.0.104"
gltf = { version = "=0.16.0", features = ["KHR_materials_unlit"] }
image = { version = "=0.23.14", default-features = false, features = ["png", "jpeg"] }
winit = "=0.26.1"
bytemuck = { version = "=1.25.2", features = ["derive"] }
async-trait = "=0.1.92"
log = "=0.4.35"
ddsfile = "*"
