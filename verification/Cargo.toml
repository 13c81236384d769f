[package]
name = "counting-contract"
version = "0.3.0"
edition = "2021"
publish = false

[dependencies]
cosmwasm-std = "1.5"
cosmwasm-schema = "1.5"
cw-storage-plus = "1.2"
cw2 = "1.1"
cw-multi-test = "0.20"
serde = { version = "1", features = ["derive"] }
thiserror = "1"
