[package]
name = "coinbase_puzzle"
version = "0.1.0"
edition = "2021"
publish = false

[dependencies]
blake2 = "0.10"
snarkvm-algorithms = "0.9"
snarkvm-curves = "0.9"
snarkvm-fields = "0.9"
snarkvm-utilities = "0.9"

[dev-dependencies]
rand = "0.8"
