[package]
name = "ft_airdrop"
version = "0.1.0"
edition = "2021"
publish = false

[dependencies]
coreum-wasm-sdk = "=0.2.4"
cosmwasm-std = "=1.5.11"
cw2 = "=1.1.2"
cw-storage-plus = "=1.2.0"
schemars = "=0.8.22"
serde = { version = "=1.0.229", features = ["derive"] }
thiserror = "=1.0.69"
