[package]
name = "recorder"
version = "0.1.0"
edition = "2021"
publish = false

[dependencies]
chrono = "0.4"
sqlx = { version = "0.8", default-features = false, features = ["sqlite", "runtime-tokio"] }
reqwest = { version = "0.12", default-features = false }
cpal = "0.15"
