[package]
name = "livermore_vesting"
version = "0.1.0"
edition = "2021"
publish = false

[dependencies]
solana-program = "2.1"
spl-token-2022 = { version = "6", default-features = false, features = ["no-entrypoint"] }
spl-associated-token-account = { version = "6", default-features = false, features = ["no-entrypoint"] }
