[package]
name = "pubsub2bq"
version = "0.1.0"
edition = "2021"
publish = false

[dependencies]
axum = "0.8"
reqwest = { version = "0.12", default-features = false }
tokio = { version = "1", features = ["macros", "net", "rt-multi-thread"] }
