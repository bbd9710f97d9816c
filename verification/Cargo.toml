[package]
name = "serenity"
version = "0.1.0"
edition = "2021"
publish = false

[dependencies]
flate2 = "1"
zstd-safe = { version = "7", features = ["std"] }
tokio = { version = "1", features = ["net", "time", "rt", "macros"] }
tokio-tungstenite = "0.24"
futures = "0.3"
url = "2"

[dev-dependencies]
serde_json = "1"
