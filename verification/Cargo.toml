[package]
name = "tcp_gateway"
version = "0.1.0"
edition = "2021"
publish = false

[dependencies]
rand = "0.8"
rand_chacha = "0.3"
tokio = { version = "1", features = ["full"] }
prometheus = "0.13"
axum = "0.7"
serde = { version = "1", features = ["derive"] }
serde_json = "1"
tracing = "0.1"
tracing-subscriber = "0.3"
dotenv = "0.15"
redis = { version = "0.25", features = ["tokio-comp"] }
