[package]
name = "flowy-router"
version = "0.1.0"
edition = "2021"
publish = false

[dependencies]
anyhow = "1"
serde = { version = "1", features = ["derive"] }
serde_json = "1"
tokio = { version = "1", features = ["full"] }
axum = "*"
tracing = "0.1"
reqwest = { version = "*", default-features = false, features = ["json", "stream"] }
futures = "0.3"
bytes = "1"
clap = { version = "4", features = ["derive"] }
tokio-util = "*"
tower-http = { version = "*", features = ["cors", "trace"] }
