[package]
name = "jupiter_core"
version = "0.1.0"
edition = "2021"
publish = false

[dependencies]
anchor-lang = "=1.2.1"
anyhow = "=1.0.104"
borsh = "=1.8.1"
jupiter-amm-interface = "=0.6.1"
pyth-solana-receiver-sdk = "=2.0.0"
rust_decimal = "=1.43.0"
# Not used by name. jupiter-amm-interface takes any solana-account-decoder from
# 2.0 on, and the newest one asks for a later compiler than every other crate
# here: this line holds it to a release that builds beside them.
solana-account-decoder = { version = "=4.1.2", features = ["agave-unstable-api"] }
solana-sdk = "=5.0.0"
spl-associated-token-account = { version = "=8.0.0", features = ["no-entrypoint"] }
spl-token = { version = "=9.0.0", features = ["no-entrypoint"] }
spl-token-2022 = { version = "=11.1.0", features = ["no-entrypoint"] }
