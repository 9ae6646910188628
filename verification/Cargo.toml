[package]
name = "crowdfund"
version = "0.1.0"
edition = "2021"
publish = false

[dependencies]
cosmwasm-std = "1.5"
cosmwasm-schema = "1.5"
cw2 = "1.1"
cw20 = "1.1"
cw20-base = { version = "1.1", features = ["library"] }
cw721 = "0.16"
cw721-base = { version = "0.16", features = ["library"] }
cw-denom = "2"
cw-ownable = "0.5"
cw-storage-plus = "1.2"
cw-utils = "1.0"
schemars = "0.8"
serde = { version = "1.0", features = ["derive"] }
thiserror = "1.0"
wynd-utils = "*"
