[package]
name = "broker_facade"
version = "0.1.0"
edition = "2021"
publish = false

[dependencies]
anyhow = "1"
async-trait = "0.1"
backoff = "0.4"
snafu = "0.7"
tokio = { version = "1", features = ["sync"] }
tracing = "0.1"
