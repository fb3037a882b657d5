[package]
name = "tauri-plugin-screenshot-hd"
version = "0.1.0"
edition = "2021"
publish = false

[dependencies]
tauri = { version = "2", default-features = false, features = ["wry"] }
tiny_http = "=0.12.0"
log = "0.4"
objc = "=0.2.7"
block = "=0.1.6"
