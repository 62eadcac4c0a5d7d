[package]
name = "section45"
version = "0.1.0"
edition = "2021"
publish = false

[dependencies]
sha2 = "*"
soroban-sdk = "*"
