[package]
name = "sse_relay"
version = "0.1.0"
edition = "2021"
publish = false

[dependencies]
serde = { version = "1", features = ["derive"] }
serde_json = "1"
axum = "0.7"
tokio = { version = "1", features = ["full"] }
reqwest = { version = "0.12", default-features = false, features = ["json", "stream", "rustls-tls"] }
tower-http = { version = "0.5", features = ["cors"] }
async-stream = "0.3"
futures = "0.3"
dotenv = "0.15"
tracing = "0.1"
tracing-subscriber = "0.3"
