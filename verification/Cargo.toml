[package]
name = "token_ledger"
version = "0.1.0"
edition = "2021"
publish = false

[dependencies]
soroban-sdk = "*"
soroban-token-sdk = "*"
