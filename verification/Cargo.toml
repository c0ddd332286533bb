[package]
name = "stellarcred"
version = "0.1.0"
edition = "2021"
publish = false

[dependencies]
soroban-sdk = "*"
ultrahonk_soroban_verifier = "*"

[dev-dependencies]
soroban-sdk = { version = "*", features = ["testutils"] }
