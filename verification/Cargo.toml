[package]
name = "oracle-contract"
version = "0.1.0"
edition = "2021"
publish = false

[dependencies]
base64 = "0.21"
cosmwasm-std = "1.5"
cw2 = "1.1"
cw-storage-plus = "1.2"
serde = { version = "1", features = ["derive"] }
sha2 = "0.10"

[dev-dependencies]
k256 = "0.13"
