[package]
name = "notifications"
version = "0.1.0"
edition = "2021"
publish = false

[dependencies]
deadpool = "*"
deadpool-postgres = "*"
tokio-postgres = "*"
tokio = { version = "*", features = ["rt", "rt-multi-thread"] }
serde = { version = "*", features = ["derive"] }
actix-web = "*"
env_logger = "*"
