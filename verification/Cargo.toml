[package]
name = "pagbar"
version = "0.1.0"
edition = "2021"
publish = false

[dependencies]
winit = { version = "0.28", default-features = false, features = ["x11"] }
egui = "0.21"
egui-winit = { version = "0.21", default-features = false }
egui-wgpu = { version = "0.21", features = ["winit"] }
wgpu = "0.15"
pollster = "0.3"
toml = "0.8"
serde = { version = "1", features = ["derive"] }
indexmap = { version = "2", features = ["serde"] }
chrono = "0.4"
systemstat = "0.2"
clap = { version = "4", features = ["derive"] }
env_logger = "0.10"
log = "0.4"
xdg = "2"
