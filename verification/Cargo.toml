[package]
name = "dca"
version = "0.1.0"
edition = "2021"
publish = false

[dependencies]
cosmwasm-std = "*"
