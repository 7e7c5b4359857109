[package]
name = "multisig_wallet"
version = "0.1.0"
edition = "2021"
publish = false

[dependencies]
ink_env = "3.4"
parity-scale-codec = { version = "3", features = ["derive"] }
scale-info = { version = "2", features = ["derive"] }
