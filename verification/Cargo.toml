[package]
name = "staking_ledger"
version = "0.1.0"
edition = "2021"
publish = false

[dependencies]
casper-types = { version = "=7.0.0", features = ["datasize", "std"] }
num-rational = "=0.4.2"
num-traits = "=0.2.19"
serde = { version = "=1.0.229", features = ["derive"] }
datasize = "=0.2.15"
