[package]
name = "proxy_core"
version = "0.1.0"
edition = "2021"
publish = false

[dependencies]
bytes = "*"
tokio = { version = "*", features = ["full"] }
tokio-util = { version = "*", features = ["net", "codec"] }
axum = { version = "*", features = ["ws"] }
http = "*"
hyper = "*"
serde = { version = "*", features = ["derive"] }
clap = { version = "*", features = ["derive"] }
anyhow = "*"
tracing = "*"
