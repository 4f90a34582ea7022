[package]
name = "automancy"
version = "0.1.0"
edition = "2021"
publish = false

[dependencies]
anyhow = "=1.0.104"
arboard = "=3.7.0"
cgmath = "=0.18.0"
color-hex = "=0.2.0"
egui = { version = "=0.22.0", default-features = false }
egui-wgpu = { version = "=0.22.0", default-features = false }
enum-ordinalize = "=4.4.2"
env_logger = { version = "=0.11.11", default-features = false }
hexagon_tiles = "=0.2.1"
image = { version = "=0.24.9", default-features = false, features = ["png"] }
lazy_static = "=1.5.1"
log = "=0.4.34"
ractor = "=0.16.5"
serde = { version = "=1.0.229", features = ["derive"] }
serde_json = "=1.0.154"
tokio = { version = "=1.54.1", features = ["rt", "rt-multi-thread", "sync"] }
toml = "=1.1.8"
toml_edit = { version = "=0.25.17", features = ["serde"] }
wgpu = { version = "=0.16.3", default-features = false }
winit = { version = "=0.28.7", default-features = false, features = ["x11"] }
