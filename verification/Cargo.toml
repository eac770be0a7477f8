[package]
name = "chain_follower"
version = "0.1.0"
edition = "2021"
publish = false

[dependencies]
parity-scale-codec = { version = "=3.7.5", default-features = false, features = ["std"] }
clap = { version = "3", features = ["derive"] }
log = "0.4"
serde = "1"
jsonrpsee = { version = "0.16", features = ["ws-client"] }
libp2p = { version = "*", features = ["dns", "noise", "tcp", "tokio", "websocket", "yamux"] }
