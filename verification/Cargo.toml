[package]
name = "rcli"
version = "0.1.0"
edition = "2021"
publish = false

[dependencies]
anyhow = "1"
axum = "0.8"
blake3 = "1"
clap = { version = "4", features = ["derive"] }
csv = "1"
ed25519-dalek = "2"
rand = "0.9"
serde = { version = "1", features = ["derive"] }
serde_json = "1"
serde_yaml = "0.9"
tokio = { version = "1", features = ["rt-multi-thread", "macros", "fs", "net"] }
tracing = "0.1"
zxcvbn = "3"
