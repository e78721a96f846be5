[package]
name = "job_engine"
version = "0.1.0"
edition = "2021"
publish = false

[dependencies]
async-channel = "1.9"
async-trait = "0.1"
futures = "0.3"
futures-concurrency = "7"
rmp-serde = "1"
serde = { version = "1", features = ["derive"] }
serde_json = "1"
tokio = { version = "1", features = ["rt", "sync", "time", "macros"] }
tracing = "0.1"
uuid = { version = "1", features = ["v4", "serde"] }
