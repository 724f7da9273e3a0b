[package]
name = "ledger_harness"
version = "0.1.0"
edition = "2021"
publish = false

[dependencies]
anchor-lang = "=0.29.0"
async-trait = "=0.1.92"
borsh = "=0.10.4"
futures = "=0.3.34"
solana-banks-client = "=1.17.14"
solana-program = "=1.17.14"
solana-sdk = "=1.17.14"
spl-associated-token-account = "=1.1.3"
spl-token = "=3.5.0"
