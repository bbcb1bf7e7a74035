[package]
name = "randomx_miner"
version = "0.1.0"
edition = "2021"
publish = false

[dependencies]
hex = "*"
randomx-rs = "*"
tari_utilities = "*"
serde = { version = "*", features = ["derive"] }
serde_json = "*"
