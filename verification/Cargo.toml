[package]
name = "dap_aggregator"
version = "0.1.0"
edition = "2021"
publish = false

[dependencies]
prio = "0.14"
hex = "0.4"
matchit = "0.7"
url = "2"
serde = { version = "1", features = ["derive"] }
serde_json = "1"
bincode = "1"
thiserror = "1"
tokio = { version = "1", features = ["rt", "sync", "macros"] }
tokio-stream = "0.1"
futures = "0.3"
reqwest = { version = "0.11", default-features = false, features = ["json"] }
axum = { version = "0.7", default-features = false }
tracing = "0.1"
async-trait = "0.1"
prometheus = { version = "0.13", default-features = false }
