[package]
name = "portal-api"
version = "0.1.0"
edition = "2021"
publish = false

[dependencies]
uuid = "1"
chrono = "0.4"
serde = { version = "1", features = ["derive"] }
serde_json = "1"
axum = "0.8"
axum-extra = { version = "0.10", features = ["cookie"] }
time = "0.3"
