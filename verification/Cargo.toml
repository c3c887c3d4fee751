[package]
name = "signup_service"
version = "0.1.0"
edition = "2021"
publish = false

[dependencies]
validator = "*"
axum = "*"
serde = { version = "*", features = ["derive"] }
tokio = { version = "*", features = ["rt-multi-thread", "macros", "net", "sync"] }
