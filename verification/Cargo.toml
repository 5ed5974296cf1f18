[package]
name = "hello_contract"
version = "0.1.0"
edition = "2021"
publish = false

[dependencies]
near-sdk = { version = "4", default-features = false }
serde = { version = "1", features = ["derive"] }
