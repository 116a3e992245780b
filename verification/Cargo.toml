[package]
name = "supernova"
version = "0.1.0"
edition = "2021"
publish = false

[dependencies]
ash = "0.38"
ash-window = "0.13"
raw-window-handle = "0.6"
winit = "0.30"
softbuffer = "0.4"
glam = "0.29"
hecs = "0.10"
ron = "0.8"
serde = { version = "1", features = ["derive"] }
bytemuck = { version = "1", features = ["derive"] }
log = "0.4"
env_logger = "0.11"
