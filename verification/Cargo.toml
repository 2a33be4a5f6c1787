[package]
name = "tray_supervisor"
version = "0.1.0"
edition = "2021"
publish = false

[dependencies]
argh = "0.1"
rfd = { version = "0.14", default-features = false, features = ["gtk3"] }
serde = { version = "1", features = ["derive"] }
serde_json = "1"
tray-icon = "0.11"
winit = "0.29"
