[package]
name = "auction_house"
version = "0.1.0"
edition = "2021"
publish = false

[dependencies]
sha3 = "=0.12.0"
near-sdk = { version = "=5.29.1", features = ["unit-testing"] }
borsh = "=1.8.1"
