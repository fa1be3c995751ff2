[package]
name = "hyperlane_tron"
version = "0.1.0"
edition = "2021"
publish = false

[dependencies]
heliosphere = "*"
heliosphere-core = "*"
heliosphere-signer = "*"
ethers-core = "*"
serde_json = "*"
url = "*"
