[package]
name = "ghost"
version = "0.1.0"
edition = "2021"
publish = false

[dependencies]
toml = "*"
chrono = "*"
serde = { version = "1", features = ["derive"] }
serde_derive = "1"
serde_json = "1"
reqwest = { version = "*", default-features = false, features = ["rustls-tls"] }
matrix-sdk = { version = "*", default-features = false, features = ["rustls-tls"] }
tokio = { version = "1", features = ["rt-multi-thread", "macros", "time"] }
anyhow = "1"
tracing-subscriber = "*"
