[package]
name = "timelock_escrow"
version = "0.1.0"
edition = "2021"
publish = false

[dependencies]
borsh = { version = "=1.8.1", features = ["derive"] }
solana-program = "=1.18.26"
spl-associated-token-account = { version = "=1.1.3", features = ["no-entrypoint"] }
spl-token = { version = "=3.5.0", features = ["no-entrypoint"] }
thiserror = "=1.0.69"
