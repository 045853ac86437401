[package]
name = "hyper_graceful"
version = "0.1.0"
edition = "2021"
publish = false

[dependencies]
thiserror = "=1.0.69"
tokio = { version = "=1.54.1", default-features = false, features = ["sync", "time", "rt", "test-util"] }
