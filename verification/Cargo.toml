[package]
name = "neuronprompter"
version = "0.1.0"
edition = "2021"
publish = false

[dependencies]
dashmap = "6"
subtle = "2"
rand = "0.9"
serde_json = "1"
chrono = { version = "0.4", default-features = false, features = ["clock", "std"] }
serde = { version = "1", features = ["derive"] }
serde_yml = "0.0.12"
thiserror = "2"
tracing = "0.1"
tokio = { version = "1", features = ["rt", "time", "sync", "macros"] }
tokio-util = "0.7"
axum = "0.8"
tower-http = { version = "0.6", features = ["cors", "set-header"] }
reqwest = { version = "0.12", default-features = false, features = ["json"] }
