[package]
name = "cw20_guardian"
version = "0.1.0"
edition = "2021"
publish = false

[dependencies]
astroport = "=1.0.1"
bigint = "=4.4.3"
cosmwasm-bignumber = "=2.2.0"
cosmwasm-std = "=0.16.7"
cw-storage-plus = "=0.8.1"
cw20 = "=0.8.1"
moneymarket = "=0.3.0"
schemars = "0.8"
serde = { version = "1", features = ["derive"] }
terra-cosmwasm = "=2.2.0"
