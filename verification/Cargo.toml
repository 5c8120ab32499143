[package]
name = "engine"
version = "0.1.0"
edition = "2021"
publish = false

[dependencies]
anyhow = "=1.0.104"
bytemuck = { version = "=1.25.2", features = ["derive"] }
cgmath = "=0.18.0"
env_logger = { version = "=0.10.2", default-features = false }
gltf = { version = "=1.4.1", default-features = false, features = ["names", "utils"] }
image = { version = "=0.24.9", default-features = false, features = ["png", "jpeg"] }
instant = "=0.1.13"
log = "=0.4.34"
pollster = "=0.3.0"
reqwest = { version = "0.11", default-features = false, features = ["blocking"] }
socket2 = ">=0.5.3, <0.5.6"
tokio = ">=1.30, <1.39"
url = "=2.5.8"
wgpu = "=0.17.2"
winit = "=0.28.7"
