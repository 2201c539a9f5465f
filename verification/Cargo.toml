[package]
name = "handoff"
version = "0.1.0"
edition = "2021"
publish = false

[dependencies]
futures = "0.3"
thiserror = "1"
twinsies = "*"

[dev-dependencies]
tokio = { version = "1", features = ["rt", "rt-multi-thread", "time"] }
