[package]
name = "create_spl_token_account"
version = "0.1.0"
edition = "2021"
publish = false

[dependencies]
solana-program = "=1.18.26"
spl-token = { version = "=3.5.0", features = ["no-entrypoint"] }
spl-associated-token-account = { version = "=1.0.5", features = ["no-entrypoint"] }
solana-sdk = "=1.18.26"
