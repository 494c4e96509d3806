[package]
name = "kedai_server"
version = "0.2.1"
edition = "2021"
publish = false

[dependencies]
serde_json = "1"
serde = { version = "1", features = ["derive"] }
encoding_rs = "0.8"
uuid = { version = "1", features = ["v4"] }
reqwest = { version = "0.12", default-features = false, features = ["json", "stream", "rustls-tls"] }
axum = "0.7"
tokio = { version = "1", features = ["full"] }
tracing = "0.1"
futures = "0.3"
