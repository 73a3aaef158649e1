[package]
name = "deeplink_dispatch"
version = "0.1.0"
edition = "2021"
publish = false

[dependencies]
tauri = { version = "2", default-features = false }
tauri-plugin-deep-link = "2"
