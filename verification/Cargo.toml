[package]
name = "mbar"
version = "0.1.0"
edition = "2021"
publish = false

[dependencies]
clap = { version = "=3.2.25", features = ["derive"] }
glutin = "=0.29.1"
egui = "=0.19.0"
egui_glow = { version = "=0.19.0", features = ["winit"] }
glow = "=0.11.2"
log = "=0.4.34"
env_logger = "=0.9.3"
chrono = "=0.4.45"
xcb = "=1.7.1"
xcb-wm = { version = "=0.4.0", features = ["ewmh"] }
