[package]
name = "wagmi_staking"
version = "0.1.0"
edition = "2021"
publish = false

[dependencies]
cosmwasm-std = "1"
cw721 = "0.18"
cw721-base = "0.18"
cw-storage-plus = "1"
schemars = "0.8"
serde = { version = "1", features = ["derive"] }
