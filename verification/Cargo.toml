[package]
name = "anchor_vault_q4_25"
version = "0.1.0"
edition = "2021"
publish = false

[dependencies]
anchor-lang = "=1.2.0"
solana-pubkey = { version = "=4.4.0", features = ["curve25519"] }
