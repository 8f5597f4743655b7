[package]
name = "jup-ag"
version = "0.8.0"
edition = "2021"
publish = false

[dependencies]
base64 = "0.22"
bincode = "1.3"
itertools = "*"
reqwest = { version = "0.12", features = ["json"] }
serde = { version = "1", features = ["derive"] }
serde_json = "1"
solana-sdk = "*"
thiserror = "1"
