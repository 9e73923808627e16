[package]
name = "storage_data"
version = "0.1.0"
edition = "2021"
publish = false

[dependencies]
serde_json = "*"
bincode = "1"
base64 = "*"
ron = "*"
serde_yaml = "*"
ciborium = "*"
web-sys = { version = "*", features = ["Window", "Storage"] }
wasm-bindgen = "*"
