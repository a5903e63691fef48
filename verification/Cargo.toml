[package]
name = "liveserve"
version = "0.1.0"
edition = "2021"
publish = false

[dependencies]
anyhow = "*"
async-channel = "*"
axum = { version = "*", features = ["ws"] }
clap = { version = "*", features = ["derive"] }
hyper = "*"
mime_guess = "*"
tokio = { version = "*", features = ["full"] }
tokio-util = { version = "*", features = ["io"] }
tower-http = { version = "*", features = ["fs", "trace"] }
tracing = "*"
tracing-subscriber = "*"
