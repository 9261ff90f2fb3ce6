[package]
name = "sleepy_cat"
version = "0.1.0"
edition = "2021"
publish = false

[dependencies]
serde = { version = "=1.0.229", features = ["derive"] }
serde_json = "=1.0.154"
tokio = { version = "=1.54.1", default-features = false, features = ["sync", "time"] }
tauri = { version = "=2.12.5", default-features = false, features = ["wry"] }
objc2 = "=0.6.5"
objc2-app-kit = "=0.3.2"
objc2-foundation = "=0.3.2"
objc2-web-kit = "=0.3.2"
block2 = "=0.6.2"
core-graphics = "=0.24.0"
