[package]
name = "sentinel_wallet"
version = "0.1.0"
edition = "2021"
publish = false

[dependencies]
argon2 = "*"
bs58 = "*"
ring = "*"
solana-sdk = "*"
