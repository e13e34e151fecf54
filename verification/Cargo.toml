[package]
name = "asset_core"
version = "0.1.0"
edition = "2021"
publish = false

[dependencies]
sha2 = "0.10"
uuid = { version = "1", features = ["v7"] }
serde_json = "1"
base64 = "0.22"
chrono = "0.4"
tokio = { version = "1", features = ["sync", "rt", "macros"] }
futures-util = "0.3"
bytes = "1"
async-trait = "0.1"
tracing = "0.1"
