[package]
name = "godcoin_native"
version = "0.1.0"
edition = "2021"
publish = false

[dependencies]
godcoin = "=0.1.0"
sodiumoxide = "*"
bytes = "=0.4.12"
tokio-codec = "=0.1.2"
futures = "=0.1.31"
neon = "=1.1.2"
