[package]
name = "bike_share"
version = "0.1.0"
edition = "2021"
publish = false

[dependencies]
near-sdk = { version = "*", default-features = false, features = ["non-contract-usage"] }
