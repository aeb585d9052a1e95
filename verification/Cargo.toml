[package]
name = "mcp_gateway"
version = "0.1.0"
edition = "2021"
publish = false

[dependencies]
serde = { version = "1", features = ["derive"] }
serde_json = "1"
clap = { version = "4", features = ["derive"] }
tokio = { version = "1", features = ["full"] }
dirs = "*"
http = "1"
url = "2"
thiserror = "*"
tracing = "0.1"
tracing-subscriber = "0.3"
async-trait = "0.1"
tokio-stream = { version = "0.1", features = ["sync"] }
tokio-util = "0.7"
reqwest = { version = "*", default-features = false }
rmcp = "*"
axum = "*"
