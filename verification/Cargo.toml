[package]
name = "florestad_rpc"
version = "0.1.0"
edition = "2021"
publish = false

[dependencies]
bitcoin = { version = "0.29", features = ["serde"] }
jsonrpc-core = "18"
jsonrpc-derive = "18"
jsonrpc-http-server = "18"
serde = { version = "1", features = ["derive"] }
serde_json = "1"
futures = "0.3"
async-std = "1"
