[package]
name = "fastpotify"
version = "0.1.0"
edition = "2021"
publish = false

[dependencies]
egui = "*"
egui_extras = "*"
serde = { version = "1", features = ["derive"] }
serde_json = "1"
