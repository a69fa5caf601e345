[package]
name = "arkadas_desktop"
version = "0.1.0"
edition = "2021"
publish = false

[dependencies]
log = { version = "0.4", default-features = false }
tauri = { version = "2", default-features = false }
tauri-plugin-single-instance = { version = "2", default-features = false }
