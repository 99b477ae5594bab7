[package]
name = "merkle_airdrop"
version = "0.1.0"
edition = "2021"
publish = false

[dependencies]
sha2 = "*"
cosmwasm-std = "*"
cosmwasm-schema = "*"
cw2 = "*"
cw-storage-plus = "*"

[dev-dependencies]
hex = "*"
