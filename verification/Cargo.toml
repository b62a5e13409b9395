[package]
name = "claim_check"
version = "0.1.0"
edition = "2021"
publish = false

[dependencies]
ort = { version = "=2.0.0-rc.13", features = ["load-dynamic", "ndarray"] }
tokenizers = "=0.23.2"
ndarray = "=0.17.2"
flutter_rust_bridge = "=2.13.0"

[dev-dependencies]
serde_json = "*"
