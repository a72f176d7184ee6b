[package]
name = "gallery"
version = "0.1.0"
edition = "2021"
publish = false

[dependencies]
anyhow = "1"
dirs = "5"
image = "0.24"
inotify = "0.9"
rocket = "0.5"
serde = { version = "1", features = ["derive"] }
serde_json = "1"
