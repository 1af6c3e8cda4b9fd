[package]
name = "peer_node"
version = "0.1.0"
edition = "2021"
publish = false

[dependencies]
anyhow = "1"
futures = "0.3"
futures-timer = "3"
libp2p = { version = "0.57", features = ["ed25519", "tokio", "tcp", "noise", "yamux", "quic", "gossipsub", "identify", "ping", "dcutr", "relay", "macros", "memory-connection-limits"] }
tokio = { version = "1", features = ["macros", "rt-multi-thread", "fs"] }
