[package]
name = "fp12_tower"
version = "0.1.0"
edition = "2021"
publish = false

[dependencies]
snarkvm-utilities = "*"
rand = "0.8"
serde = { version = "1", features = ["derive"] }
