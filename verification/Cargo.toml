[package]
name = "sidecar_lifecycle"
version = "0.1.0"
edition = "2021"
publish = false

[dependencies]
keyring = "*"
ureq = "*"
serde = { version = "1", features = ["derive"] }
serde_json = "1"
