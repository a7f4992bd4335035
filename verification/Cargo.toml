[package]
name = "file_registry"
version = "0.1.0"
edition = "2021"
publish = false

[dependencies]
cosmwasm-std = "0.10"
cosmwasm-storage = "0.10"
serde = { version = "1", default-features = false, features = ["derive"] }
