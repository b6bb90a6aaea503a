[package]
name = "swap_contracts"
version = "0.1.0"
edition = "2021"
publish = false

[dependencies]
cosmwasm-std = { version = "0.16", features = ["staking"] }
cw2 = "0.8"
cw20 = "0.8"
terra-cosmwasm = "2.2"
schemars = "0.8"
serde = { version = "1.0", default-features = false, features = ["derive"] }
thiserror = "1.0"
