[package]
name = "clash_verge"
version = "0.1.0"
edition = "2021"
publish = false

[dependencies]
anyhow = "1"
log = "0.4"
once_cell = "1"
parking_lot = "0.12"
serde_yaml = "0.9"
tauri = { version = "2", default-features = false, features = ["wry", "tray-icon", "image-ico"] }
tokio = { version = "1", features = ["sync", "time"] }
