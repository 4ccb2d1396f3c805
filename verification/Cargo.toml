[package]
name = "grafica_ide"
version = "0.1.0"
edition = "2021"
publish = false

[dependencies]
chrono = "=0.4.45"
chrono-tz = "=0.10.4"
serde = { version = "=1.0.229", features = ["derive"] }
web-time = "=1.1.0"
log = "=0.4.35"
sysinfo = { version = "0.37", default-features = false, features = ["system"] }
egui = "0.34"
egui_dock = "0.19"
