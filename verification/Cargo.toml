[package]
name = "autotoken"
version = "0.1.0"
edition = "2021"
publish = false

[dependencies]
anyhow = "=1.0.104"
dotenv = "=0.15.0"
solana-commitment-config = "=3.1.1"
solana-program-pack = "=3.1.0"
solana-sdk = "=5.0.0"
solana-system-interface = { version = "=3.3.0", features = ["bincode"] }
spl-associated-token-account-interface = "=2.0.0"
spl-pod = "=0.7.4"
spl-token-2022-interface = "=3.1.2"
spl-token-metadata-interface = "=1.0.1"
tokio = { version = "=1.53.2", default-features = false, features = ["macros", "rt"] }
