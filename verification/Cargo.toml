[package]
name = "bonbon"
version = "0.1.0"
edition = "2021"
publish = false

[dependencies]
base64 = "0.13"
bincode = "1"
borsh = "=0.9.3"
bs58 = "=0.4.0"
bytes = "1"
chrono = "0.4"
clap = { version = "3", default-features = false, features = ["std", "cargo"] }
fern = "0.6"
log = "0.4"
mpl-token-metadata = { version = "=1.2.5", features = ["no-entrypoint"] }
postgres = "0.19"
postgres-types = { version = "0.2", features = ["derive"] }
prost = "0.11"
regex = "1"
solana-program = "=1.14.29"
solana-sdk = "=1.14.29"
solana-storage-proto = "=1.14.29"
solana-transaction-status = "=1.14.29"
spl-token = { version = "=3.5.0", features = ["no-entrypoint"] }
tokio = { version = "1", features = ["rt"] }
tokio-postgres = "0.7"
