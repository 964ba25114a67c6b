[package]
name = "usd2sol"
version = "0.1.0"
edition = "2021"
publish = false

[dependencies]
borsh = "=0.10.4"
pyth-sdk-solana = "=0.10.6"
solana-program = "=1.18.26"
