[package]
name = "eth_token_transfers"
version = "0.1.0"
edition = "2021"
publish = false

[dependencies]
ethabi = "17"
prost = "0.11"
prost-types = "0.11"
serde = { version = "1", features = ["derive"] }
serde_json = "1"
substreams = "0.5"
substreams-ethereum = "0.9"
