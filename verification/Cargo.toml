[package]
name = "erc20"
version = "0.1.0"
edition = "2021"
publish = false

[dependencies]
near-sdk = { version = "4", default-features = false, features = ["wee_alloc"] }
