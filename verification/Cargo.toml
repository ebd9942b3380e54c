[package]
name = "config_manager"
version = "0.1.0"
edition = "2021"
publish = false

[dependencies]
tui-textarea = "0.7"
ratzilla = "*"
gloo-net = "0.6"
serde = { version = "1", features = ["derive"] }
serde_json = "1"
wasm-bindgen = "0.2"
wasm-bindgen-futures = "0.4"
web-sys = { version = "0.3", features = ["Window", "Storage"] }
axum = "0.7"
tokio = { version = "1", features = ["full"] }
tower-http = { version = "0.6", features = ["fs"] }
toml = "0.8"
walkdir = "2"
