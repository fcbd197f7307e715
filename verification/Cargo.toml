[package]
name = "zentra_direct_stream"
version = "0.1.0"
edition = "2021"
publish = false

[dependencies]
soroban-sdk = { version = "=25.3.2", features = ["hazmat-address"] }
soroban-fixed-point-math = "=1.5.0"
sep-41-token = "=1.4.0"
