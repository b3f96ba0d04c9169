[package]
name = "uniswap_lens"
version = "0.1.0"
edition = "2021"
publish = false

[dependencies]
alloy = { version = "1", default-features = false, features = ["std", "contract", "providers", "sol-types", "rpc-types", "eips", "network"] }
