[package]
name = "quill_bridge"
version = "0.1.0"
edition = "2021"
publish = false

[dependencies]
rfd = "=0.17.2"
serde = { version = "=1.0.229", features = ["derive"] }
tauri = { version = "=2.12.5", default-features = false }
