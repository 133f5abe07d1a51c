[package]
name = "shielded_withdraw"
version = "0.1.0"
edition = "2021"
publish = false

[dependencies]
plonky2 = "=0.2.2"
anyhow = "=1.0.104"
rand = "=0.10.3"
