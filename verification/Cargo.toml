[package]
name = "physics_sim"
version = "0.1.0"
edition = "2021"
publish = false

[dependencies]
anyhow = "=1.0.104"
chrono = "=0.4.45"
egui = "=0.33.3"
egui_wgpu_backend = "=0.36.0"
egui_winit_platform = "=0.28.0"
fern = "=0.7.1"
futures = "=0.3.34"
log = "=0.4.34"
tokio = { version = "=1.53.2", features = ["rt-multi-thread", "net"] }
wgpu = "=28.0.0"
winit = "=0.30.13"
