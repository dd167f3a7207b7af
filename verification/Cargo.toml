[package]
name = "bae_sf"
version = "0.14.2"
edition = "2021"
publish = false

[dependencies]
bae_rs = "*"
