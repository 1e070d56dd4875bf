[package]
name = "lp_json"
version = "0.1.0"
edition = "2021"
publish = false

[dependencies]
serde_json = "1"
serde = "1"
futures = "0.3"
async-trait = "0.1"
libp2p-request-response = "*"
