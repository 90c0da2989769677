[package]
name = "secretswap"
version = "0.1.0"
edition = "2021"
publish = false

[dependencies]
sha2 = "=0.9.9"
rand = "=0.8.8"
rand_chacha = "=0.3.1"
secret-toolkit = "=0.2.0"
secret-cosmwasm-std = "=0.10.1"
secret-cosmwasm-storage = "=0.10.0"
serde = { version = "1", features = ["derive"] }
