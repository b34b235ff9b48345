[package]
name = "pgp_keygen"
version = "0.1.0"
edition = "2021"
publish = false

[dependencies]
chrono = "0.4"
ed25519-dalek = "=1.0.0-pre.1"
num-bigint-dig = "0.4"
rand = "0.6"
rsa = "0.1"
x25519-dalek = "0.5"
