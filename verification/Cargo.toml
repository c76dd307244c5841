[package]
name = "log_pipeline"
version = "0.1.0"
edition = "2021"
publish = false

[dependencies]
anyhow = "1"
tracing = "0.1"
tracing-appender = "0.2"
tracing-log = "0.2"
tracing-rolling-file = "0.1"
tracing-subscriber = { version = "0.3", features = ["env-filter"] }
