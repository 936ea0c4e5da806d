[package]
name = "lavalink_rs"
version = "0.1.0"
edition = "2021"
publish = false

[dependencies]
async-trait = "0.1"
async-tungstenite = { version = "*", features = ["tokio-runtime"] }
dashmap = "5"
futures-util = "0.3"
log = "0.4"
parking_lot = "0.12"
regex = "1"
reqwest = { version = "0.11", default-features = false }
serde_json = "1"
tokio = { version = "1", features = ["rt", "sync", "time"] }
