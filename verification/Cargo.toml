[package]
name = "nodb"
version = "0.1.0"
edition = "2021"
publish = false

[dependencies]
base64 = "*"
bincode = "1"
bitcode = { version = "*", features = ["serde"] }
pot = "*"
ron = "*"
serde_cbor = "*"
serde_json = "*"
