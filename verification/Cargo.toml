[package]
name = "stake_vault"
version = "0.1.0"
edition = "2021"
publish = false

[dependencies]
borsh = { version = "1.5", features = ["derive"] }
solana-program = "2.3"
spl-associated-token-account = { version = "7.0", features = ["no-entrypoint"] }
spl-token = { version = "8.0", features = ["no-entrypoint"] }
thiserror = "2.0"
