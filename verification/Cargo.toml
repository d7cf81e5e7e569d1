[package]
name = "sphincter"
version = "0.1.0"
edition = "2021"
publish = false

[dependencies]
axum = { version = "*", features = ["ws"] }
clap = { version = "*", features = ["derive", "env"] }
dashmap = "*"
rand = "0.9"
serde = { version = "*", features = ["derive"] }
serde_json = "*"
tokio = { version = "*", features = ["rt-multi-thread", "net", "io-util", "sync", "macros"] }
tracing = "*"
tracing-subscriber = "*"
