[package]
name = "chetris"
version = "0.1.0"
edition = "2021"
publish = false

[dependencies]
serde_json = "=1.0.151"
rdev = "0.5"
tauri = { version = "2", default-features = false }
