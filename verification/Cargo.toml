[package]
name = "unicorn"
version = "0.0.1"
edition = "2021"
publish = false

[dependencies]
clap = "2"
jsonrpc-core = "*"
log = "0.4"
serde = { version = "1", features = ["derive"] }
serde_json = "1"
ws = "0.9"
