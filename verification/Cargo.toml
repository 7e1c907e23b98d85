[package]
name = "cw_one2one_nft"
version = "0.1.0"
edition = "2021"
publish = false

[dependencies]
cosmwasm-std = "0.16"
cw721 = "0.9"
cw2 = "0.9"
serde = { version = "1", features = ["derive"] }
