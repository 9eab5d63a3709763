[package]
name = "grass_rendering"
version = "0.1.0"
edition = "2021"
publish = false

[dependencies]
anyhow = "=1.0.104"
ash = "=0.38.0"
ash-window = "=0.13.0"
bevy_app = "=0.17.3"
bevy_ecs = "=0.17.3"
bevy_time = "=0.17.3"
bytemuck = { version = "=1.25.2", features = ["derive"] }
crossbeam-channel = "=0.5.17"
dolly = "=0.6.0"
glam = { version = "=0.30.10", features = ["bytemuck", "mint"] }
gltf = "=1.4.1"
gpu-allocator = "=0.27.0"
itertools = "=0.14.0"
presser = "=0.3.1"
raw-window-handle = "=0.6.2"
tracing = "=0.1.44"
tracing-subscriber = "=0.3.23"
winit = "=0.30.13"
