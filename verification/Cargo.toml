[package]
name = "combat_arena"
version = "0.1.0"
edition = "2021"
publish = false

[dependencies]
miden-crypto = "=0.21.4"
