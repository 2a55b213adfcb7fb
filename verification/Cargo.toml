[package]
name = "mpc_beacon"
version = "0.1.0"
edition = "2021"
publish = false

[dependencies]
byteorder = "=1.5.0"
clap = "=2.34.0"
hex = "=0.4.3"
pairing = "=0.14.2"
phase2 = "=0.2.2"
rand = "=0.4.6"
rust-crypto = "=0.2.36"

[dev-dependencies]
bellman = "=0.1.0"
