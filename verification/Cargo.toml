[package]
name = "match_settlement"
version = "0.1.0"
edition = "2021"
publish = false

[dependencies]
hex = "*"
hmac = "*"
sha2 = "*"
uuid = { version = "*", features = ["v4"] }
chrono = "*"
solana-sdk = "*"
