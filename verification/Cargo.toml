[package]
name = "relay_core"
version = "0.1.0"
edition = "2021"
publish = false

[dependencies]
uuid = { version = "1", features = ["v4"] }
rand = "0.8"
chrono = "0.4"
serde = { version = "1", features = ["derive"] }
serde_json = "1"
tokio = { version = "1", features = ["rt-multi-thread", "macros", "time", "net"] }
axum = "0.7"
reqwest = { version = "0.12", default-features = false, features = ["json"] }
mongodb = "2"
redis = "*"
cloudevents-sdk = "*"
