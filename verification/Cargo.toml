[package]
name = "nft_registry"
version = "0.1.0"
edition = "2021"
publish = false

[dependencies]
base64 = "0.13"
secret-cosmwasm-std = "0.10"
secret-cosmwasm-storage = "0.10"
secret-toolkit = { version = "0.3", default-features = false, features = ["serialization", "storage", "utils"] }
serde = { version = "1", features = ["derive"] }
schemars = "0.7"
sha2 = "0.9"
