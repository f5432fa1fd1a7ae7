[package]
name = "readycheck"
version = "0.1.0"
edition = "2021"
publish = false

[dependencies]
anyhow = "1"
serenity = { version = "0.12", default-features = false, features = ["builder", "cache", "client", "gateway", "http", "model", "rustls_backend", "utils"] }
tokio = { version = "1", features = ["macros", "rt-multi-thread", "sync", "time"] }
tracing = "0.1"
