[package]
name = "peerchat"
version = "0.1.0"
edition = "2021"
publish = false

[dependencies]
libp2p = { version = "0.53", features = ["floodsub", "mdns", "tokio", "tcp", "noise", "yamux", "macros", "serde"] }
futures = "0.3"
tokio = { version = "1", features = ["full"] }
once_cell = "1"
serde = { version = "1", features = ["derive"] }
serde_json = "1"
log = "0.4"
pretty_env_logger = "0.5"
