[package]
name = "bet_on_event"
version = "0.1.0"
edition = "2021"
publish = false

[dependencies]
bincode = "1.3"
serde = { version = "1", features = ["derive"] }
solana-sdk = { version = "*", default-features = false }
