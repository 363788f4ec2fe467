[package]
name = "secret_data_tools"
version = "0.1.0"
edition = "2021"
publish = false

[dependencies]
substrate-fixed = "*"
rand = "0.8"
rand_chacha = "0.3"
serde = { version = "1", features = ["derive"] }
schemars = "0.8"
cosmwasm-std = "1"
