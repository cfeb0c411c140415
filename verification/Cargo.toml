[package]
name = "electrsd"
version = "0.1.0"
edition = "2021"
publish = false

[dependencies]
which = "*"
electrum-client = { version = "*", default-features = false }
nix = { version = "*", features = ["signal", "process"] }
log = "*"
anyhow = "*"
tempfile = "*"
serde_json = "*"
