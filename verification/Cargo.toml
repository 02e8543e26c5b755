[package]
name = "relay_probe"
version = "0.1.0"
edition = "2021"
publish = false

[dependencies]
base64 = "0.22"
bincode = "1"
rand = "0.8"
serde_json = "1"
solana-sdk = { version = "=2.3.1", features = ["full"] }
reqwest = { version = "0.12", default-features = false }
tokio = { version = "1", features = ["rt-multi-thread", "macros", "time"] }
