[package]
name = "tx_cache"
version = "0.1.0"
edition = "2021"
publish = false

[dependencies]
alloy-primitives = "=1.7.3"
reth-primitives-traits = "=0.8.2"
revm-database = "*"

[dev-dependencies]
alloy-consensus = "=2.5.0"
op-alloy-consensus = "=2.0.0"
