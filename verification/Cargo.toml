[package]
name = "fpsmaster_app"
version = "0.1.0"
edition = "2021"
publish = false

[dependencies]
serde_json = "1"
glam = "*"
winit = { version = "0.30", default-features = false, features = ["x11"] }
