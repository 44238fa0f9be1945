[package]
name = "superior_randomness"
version = "0.1.0"
edition = "2021"
publish = false

[dependencies]
solana-program = "1.18"
getrandom = "0.2"
sha2 = "0.10"
bs58 = "0.4"
