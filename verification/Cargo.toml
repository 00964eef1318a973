[package]
name = "creditra_contracts"
version = "0.1.0"
edition = "2021"
publish = false

[dependencies]
soroban-sdk = "*"
thiserror = "*"

[dev-dependencies]
soroban-sdk = { version = "*", features = ["testutils"] }
