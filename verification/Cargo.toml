[package]
name = "tip_router"
version = "0.1.0"
edition = "2021"
publish = false

[dependencies]
spl-math = "0.3"
solana-program = "2"
jito-vault-core = "*"
thiserror = "1"
borsh = { version = "1", features = ["derive"] }
