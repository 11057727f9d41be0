[package]
name = "rover_compose"
version = "0.1.0"
edition = "2021"
publish = false

[dependencies]
anyhow = "1"
apollo-federation-types = "0.14"
camino = { version = "1", features = ["serde1"] }
clap = { version = "4", features = ["derive"] }
derive-getters = "*"
futures = "0.3"
semver = { version = "1", features = ["serde"] }
serde = { version = "1", features = ["derive"] }
serde_json = "1"
serde_yaml = "0.8"
tempfile = "3"
tokio = { version = "1", features = ["sync", "rt", "macros"] }
tracing = "0.1"
