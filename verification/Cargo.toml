[package]
name = "hestia"
version = "0.1.0"
edition = "2021"
publish = false

[dependencies]
anyhow = "1"
clap = { version = "4", features = ["derive"] }
eframe = { version = "*", default-features = false, features = ["glow", "default_fonts", "x11"] }
egui = { version = "*", default-features = false }
env_logger = "*"
log = "0.4"
tracing = "0.1"
tracing-etw = "*"
tracing-subscriber = "0.3"
wdk = "*"
wdk-alloc = "*"
wdk-panic = "*"
wdk-sys = "*"
windows-service = "*"
windows-strings = "*"
