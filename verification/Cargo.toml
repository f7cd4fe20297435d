[package]
name = "blocks_resources"
version = "0.1.0"
edition = "2021"
publish = false

[dependencies]
soroban-sdk = "=27.0.6"
soroban-client = "=0.6.0"
stellar-xdr = "=28.0.1"
tokio = { version = "=1.54.1", features = ["macros", "rt-multi-thread", "time"] }
