[package]
name = "bent"
version = "0.1.0"
edition = "2021"
publish = false

[dependencies]
dirs = "=5.0.1"
egui = "=0.27.2"
egui-notify = "=0.14.0"
futures = "=0.3.34"
image = { version = "=0.25.10", default-features = false }
log = "=0.4.34"
rfd = { version = "0.14", default-features = false, features = ["async-std", "xdg-portal"] }
serde = { version = "=1.0.229", features = ["derive"] }
serde_json = "=1.0.154"
wasm-bindgen-futures = "=0.4.79"
