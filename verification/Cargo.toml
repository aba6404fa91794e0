[package]
name = "softauthn"
version = "0.1.0"
edition = "2021"
publish = false

[dependencies]
anyhow = "1"
base64-url = "=3.0.4"
clap = { version = "4", features = ["derive"] }
hex = "=0.4.3"
p256 = { version = "=0.13.2", features = ["ecdsa"] }
postgres = { version = "=0.19.14", features = ["with-serde_json-1"] }
rand = "=0.8.8"
serde_json = "1"
sha2 = "=0.10.9"
