[package]
name = "staking_contract"
version = "0.1.0"
edition = "2021"
publish = false

[dependencies]
solana-program = "2"
spl-token = { version = "7", features = ["no-entrypoint"] }
borsh = { version = "1", features = ["derive"] }
thiserror = "1"
anchor-lang = "0.31"
anchor-spl = { version = "0.31", default-features = false, features = ["token"] }
