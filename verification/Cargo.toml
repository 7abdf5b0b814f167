[package]
name = "ckb-auth-cli"
version = "0.1.0"
edition = "2021"
publish = false

[dependencies]
anyhow = "1"
base58-monero = "2"
base64 = "0.21"
bs58 = "0.5"
ckb-hash = "*"
ckb-types = "*"
clap = "4"
hex = "0.4"
