[package]
name = "sol_dash"
version = "0.1.0"
edition = "2021"
publish = false

[dependencies]
anyhow = "1"
clap = { version = "4", features = ["derive"] }
colored = "2"
solana-program = "=1.18.26"
solana-sdk = "=1.18.26"
tokio = { version = "1", features = ["macros", "rt-multi-thread"] }
