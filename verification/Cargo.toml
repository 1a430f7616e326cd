[package]
name = "skeleton_sprint_launcher"
version = "0.1.0"
edition = "2021"
publish = false

[dependencies]
conrod_core = "=0.71.0"
conrod_piston = "=0.71.0"
ggez = "=0.5.1"
glutin = "=0.21.2"
image = "=0.23.14"
libc = "=0.2.191"
parking_lot = "=0.11.2"
piston_window = "=0.113.0"
pistoncore-glutin_window = "=0.66.0"
serde = { version = "=1.0.229", features = ["derive"] }
steamworks = "=0.10.0"
tokio = { version = "=1.54.1", features = ["rt-multi-thread", "fs", "sync"] }
toml = "=0.5.11"
winit = "=0.19.5"
