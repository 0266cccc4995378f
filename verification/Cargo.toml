[package]
name = "arkflow"
version = "0.1.0"
edition = "2021"
publish = false

[dependencies]
serde = { version = "1", features = ["derive"] }
serde_json = "1"
tokio = { version = "1", features = ["full"] }
flume = "0.11"
tokio-util = "0.7"
async-trait = "0.1"
