[package]
name = "mysolanaapp"
version = "0.1.0"
edition = "2021"
publish = false

[dependencies]
anchor-lang = "0.29.0"
anchor-spl = "0.29.0"
arrayref = "0.3.9"
spl-token = { version = "4.0", features = ["no-entrypoint"] }
mpl-token-metadata = "3.2.3"
solana-gateway = "0.4.0"
solana-program = "~1.17"
clap = { version = "3.2.25", features = ["derive"] }
rand = "0.8.5"
serde = { version = "1", features = ["derive"] }
serde_json = "1"
