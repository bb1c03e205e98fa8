[package]
name = "video_gateway"
version = "0.1.0"
edition = "2021"
publish = false

[dependencies]
axum = "*"
tokio = { version = "*", features = ["full"] }
tokio-util = { version = "*", features = ["io"] }
serde = { version = "*", features = ["derive"] }
serde_json = "*"
reqwest = { version = "*", default-features = false, features = ["stream"] }
mongodb = "*"
azure_core = "*"
azure_identity = "*"
azure_storage_blob = "*"
