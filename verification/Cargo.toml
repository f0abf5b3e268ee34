[package]
name = "spin_worker"
version = "0.1.0"
edition = "2021"

[dependencies]
anyhow = "1"
bytes = "1"
serde = { version = "1", features = ["derive"] }
serde_json = "1"
spin-sdk = "=2.2.0"
