[package]
name = "payment_gateway"
version = "0.1.0"
edition = "2021"
publish = false

[dependencies]
sha2 = "*"
axum = "*"
serde = { version = "*", features = ["derive"] }
serde_json = "*"
tokio = { version = "*", features = ["rt-multi-thread", "net", "macros", "sync", "signal"] }
tokio-util = "*"
