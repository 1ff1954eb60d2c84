[package]
name = "clearing_house"
version = "0.1.0"
edition = "2021"
publish = false

[dependencies]
anchor-lang = "=0.24.2"
bytemuck = "=1.25.2"
pyth-client = "=0.2.2"
solana-program = "=1.9.29"
switchboard-v2 = "=0.1.10"
