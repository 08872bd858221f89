[package]
name = "zenoh_oam"
version = "0.1.0"
edition = "2021"
publish = false

[dependencies]
serde = { version = "1", features = ["derive"] }
serde_json = "1"
serde_bytes = "0.11"
rmp-serde = "1"
rand = "0.8"
tokio = { version = "1", features = ["sync", "time", "net", "io-util", "rt", "macros"] }
tokio-util = "0.7"
tracing = "0.1"
async-trait = "0.1"
