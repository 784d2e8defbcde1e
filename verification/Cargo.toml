[package]
name = "match_events"
version = "0.1.0"
edition = "2021"
publish = false

[dependencies]
rand = "0.8"
redis = { version = "0.23", features = ["aio", "tokio-comp"] }
serde = { version = "1", features = ["derive"] }
serde_json = "1"
tokio = { version = "1", features = ["full"] }
tokio-util = "0.7"
axum = { version = "0.7", features = ["ws"] }
lapin = { version = "2", default-features = false }
tokio-executor-trait = "2"
tokio-reactor-trait = "1"
clap = { version = "4", features = ["derive"] }
futures = "0.3"
futures-util = "0.3"
futures-lite = "1"
futures-core = "0.3"
async-stream = "0.3"
tracing = "0.1"
tracing-subscriber = { version = "0.3", features = ["env-filter"] }
