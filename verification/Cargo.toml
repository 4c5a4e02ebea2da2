[package]
name = "counter"
version = "0.1.0"
edition = "2021"
publish = false

[dependencies]
cosmwasm-schema = "*"
cosmwasm-std = "*"
cw2 = "*"
