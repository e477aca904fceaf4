[package]
name = "zklink_sdk"
version = "0.1.0"
edition = "2021"
publish = false

[dependencies]
franklin-crypto = "=0.1.0"
hex = "=0.4.3"
k256 = { version = "=0.13.4", features = ["ecdsa"] }
num = "=0.4.3"
serde = { version = "=1.0.229", features = ["derive"] }
serde_json = "=1.0.154"
sha2 = "=0.10.9"
sha3 = "=0.10.9"
wasm-bindgen = "=0.2.129"
