[package]
name = "solana_amm"
version = "0.1.0"
edition = "2021"
publish = false

[dependencies]
rust_decimal = { version = "1", default-features = false, features = ["std"] }
solana-program = "2"
spl-token = { version = "8", features = ["no-entrypoint"] }
thiserror = "1"
