[package]
name = "pubky-app-specs"
version = "0.6.2"
edition = "2021"
publish = false

[dependencies]
base32 = "=0.5.1"
blake3 = { version = "=1.8.7", features = ["pure"] }
ed25519-dalek = "=2.2.0"
serde = { version = "=1.0.229", features = ["derive"] }
serde_json = "=1.0.154"
url = "2"
