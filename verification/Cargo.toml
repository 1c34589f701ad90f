[package]
name = "resetping"
version = "0.1.4"
edition = "2021"
publish = false

[dependencies]
rand = "*"
uuid = { version = "1", features = ["v4"] }
serde = { version = "1", features = ["derive"] }
serde_json = "1"
dotenvy = "0.15"
tokio = { version = "1", features = ["time", "rt", "macros"] }
reqwest = { version = "0.12", default-features = false, features = ["rustls-tls"] }
sentry = "*"
