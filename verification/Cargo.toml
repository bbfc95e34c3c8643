[package]
name = "session_guard"
version = "0.1.0"
edition = "2021"
publish = false

[dependencies]
actix-session = "=0.6.2"
chrono = { version = "=0.4.45", features = ["serde"] }
serde = "=1.0.229"
serde_json = "=1.0.154"
thiserror = "=1.0.69"

[dev-dependencies]
actix-web = { version = "=4.18.1", default-features = false }
