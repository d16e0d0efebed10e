[package]
name = "zk_verifier"
version = "0.1.0"
edition = "2021"
publish = false

[dependencies]
soroban-sdk = { version = "=25.3.2", features = ["testutils"] }
soroban-env-host = { version = "=25.2.2", features = ["testutils"] }
