[package]
name = "tauri-runtime-cef"
version = "0.1.0"
edition = "2021"
publish = false

[dependencies]
base64 = "=0.22.1"
cef = { version = "=156.3.0", default-features = false }
dirs = "=6.0.0"
raw-window-handle = "=0.6.2"
sha2 = "=0.10.9"
tauri-utils = { version = "=2.10.2", default-features = false, features = ["html-manipulation"] }
url = "=2.5.8"
winit = { version = "=0.31.0-beta.4", default-features = false, features = ["x11"] }
