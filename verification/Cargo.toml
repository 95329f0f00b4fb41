[package]
name = "gcm"
version = "0.1.0"
edition = "2021"
publish = false

[dependencies]
wasefire-applet-api = { version = "=0.9.0", features = ["wasm", "api-crypto-gcm"] }

[dev-dependencies]
wasefire-error = "=0.1.4"
