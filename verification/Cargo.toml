[package]
name = "swarmauri_crypto_rust"
version = "0.1.0"
edition = "2021"
publish = false

[dependencies]
ring = "0.17"
