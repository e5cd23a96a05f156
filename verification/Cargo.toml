[package]
name = "nft_marketplace"
version = "0.1.0"
edition = "2021"
publish = false

[dependencies]
cosmwasm-std = "1.5"
cw2 = "1.1"
cw20 = "1.1"
cw721 = "0.18"
cw-storage-plus = "1.2"
cw-utils = "1.0"
semver = "1"
serde = { version = "1", features = ["derive"] }
schemars = "0.8"
