[package]
name = "session_control"
version = "0.4.0"
edition = "2021"
publish = false

[dependencies]
chrono = { version = "0.4", default-features = false, features = ["std"] }
extism-pdk = "1"
serde = { version = "1", features = ["derive"] }
serde_json = "1"
