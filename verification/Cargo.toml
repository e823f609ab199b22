[package]
name = "enpass_vault"
version = "0.1.0"
edition = "2021"
publish = false

[dependencies]
rust-crypto = "=0.2.36"
serde_json = "=1.0.151"
rusqlcipher = "=0.13.0"
structopt = "=0.3.26"
