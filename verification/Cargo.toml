[package]
name = "rns_v1_badge_lockers"
version = "0.1.0"
edition = "2021"
publish = false

[dependencies]
scrypto = "*"
