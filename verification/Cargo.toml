[package]
name = "embedded_mongodb"
version = "0.1.0"
edition = "2021"
publish = false

[dependencies]
bson = { version = "3", features = ["serde"] }
serde = { version = "1", features = ["derive"] }
thiserror = "2"
tokio = { version = "1", features = ["sync"] }
tracing = "0.1"
