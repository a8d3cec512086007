[package]
name = "normal"
version = "0.1.0"
edition = "2021"
publish = false

[dependencies]
anchor-lang = "=1.2.2"
byteorder = "=1.5.0"
num-integer = "=0.1.47"
pyth-solana-receiver-sdk = "=2.0.0"
pythnet-sdk = "=3.0.0"
