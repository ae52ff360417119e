[package]
name = "halkeys"
version = "0.1.0"
edition = "2021"
publish = false

[dependencies]
bitcoin = "0.29"
bech32 = "0.9"
hex = "0.4"
rand = "0.8"
clap = "2"
