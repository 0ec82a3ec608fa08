[package]
name = "boltffi_bindgen"
version = "0.1.0"
edition = "2021"
publish = false

[dependencies]
serde = { version = "=1.0.229", features = ["derive"] }
serde_json = "=1.0.154"
boltffi_ffi_rules = "=0.29.3"
