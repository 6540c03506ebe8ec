[package]
name = "crm"
version = "0.1.0"
edition = "2021"
publish = false

[dependencies]
anyhow = "1"
chrono = "0.4"
futures = "0.3"
prost = "0.12"
tokio = { version = "1", features = ["macros", "rt", "rt-multi-thread", "sync", "time"] }
tokio-stream = "0.1"
tonic = { version = "0.11", features = ["tls"] }
tracing = "0.1"
uuid = { version = "1", features = ["v4"] }
