[package]
name = "mailbox"
version = "0.1.0"
edition = "2021"
publish = false

[dependencies]
cosmwasm-schema = "1.5"
cosmwasm-std = "1.5"
sha3 = "0.10"
