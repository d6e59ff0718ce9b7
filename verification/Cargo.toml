[package]
name = "farm_fund"
version = "0.1.0"
edition = "2021"
publish = false

[dependencies]
solana-farm-sdk = "=1.1.3"
solana-program = "1.9"
anchor-lang = "=0.24.2"
anchor-spl = "=0.24.2"
