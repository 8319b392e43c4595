[package]
name = "bearish-dot-fun"
version = "0.1.0"
edition = "2021"
publish = false

[dependencies]
anchor-lang = { version = "0.30.1", features = ["init-if-needed"] }
anchor-spl = { version = "0.30.1" }
pyth-sdk-solana = "0.10"
solana-security-txt = "1"
