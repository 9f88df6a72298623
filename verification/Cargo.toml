[package]
name = "cryptomus"
version = "0.1.0"
edition = "2021"
publish = false

[dependencies]
base64 = "=0.22.1"
md5 = "=0.7.0"
reqwest = "=0.12.28"
serde_json = { version = "=1.0.154", features = ["raw_value"] }
