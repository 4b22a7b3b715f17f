[package]
name = "engine_prune"
version = "0.1.0"
edition = "2021"
publish = false

[dependencies]
futures = "=0.3.34"
metrics = "*"
tokio = { version = "=1.54.1", features = ["sync"] }
tracing = "=0.1.44"
