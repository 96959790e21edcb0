[package]
name = "pyr0"
version = "0.1.0"
edition = "2021"
publish = false

[dependencies]
anyhow = "=1.0.104"
bincode = "=1.3.3"
hex = "=0.4.3"
num-bigint = "=0.4.8"
poseidon-bn128 = "=0.1.1"
risc0-binfmt = "=3.0.5"
risc0-zkvm = "=3.0.6"
risc0-zkvm-platform = "=2.2.3"
scalarff = { version = "=0.4.3", features = ["alt_bn128"] }
sha2 = "=0.10.9"
sparse-merkle-tree = "=0.6.1"
