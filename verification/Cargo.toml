[package]
name = "starknet_simulation"
version = "0.1.0"
edition = "2021"
publish = false

[dependencies]
flate2 = "=1.1.10"
serde_json = "=1.0.154"
starknet-core = "=0.9.0"
