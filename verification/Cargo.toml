[package]
name = "grin_btc_swap"
version = "0.1.0"
edition = "2021"
publish = false

[dependencies]
grin_secp256k1zkp = "*"
sha2 = "*"
rand = "0.8"
bitcoin = "*"
