[package]
name = "saturn_v1_lite"
version = "0.1.0"
edition = "2021"
publish = false

[dependencies]
anchor-lang = { version = "=0.29.0", features = ["init-if-needed"] }
anchor-spl = { version = "=0.29.0", features = ["metadata"] }
mpl-token-metadata = "=3.2.3"
solana-program = "=1.18.26"
klend = "=0.1.0"
marginfiv2cpi = "=0.1.0"
meteorapool = "=0.1.0"
