[package]
name = "stealth"
version = "0.1.0"
edition = "2021"
publish = false

[dependencies]
curve25519-dalek = "=4.1.3"
solana-program = "=1.18.26"
serde = { version = "=1.0.229", features = ["derive"] }
