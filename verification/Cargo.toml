[package]
name = "matchcore"
version = "0.1.0"
edition = "2021"
publish = false

[dependencies]
async-channel = "*"
serde = { version = "*", features = ["derive"] }
serde_json = "*"
reqwest = { version = "*", default-features = false, features = ["rustls-tls", "json"] }
tokio = { version = "*", features = ["rt-multi-thread"] }
png = "*"
chrono = "*"
bytes = "*"
