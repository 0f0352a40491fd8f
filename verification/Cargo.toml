[package]
name = "grok_rust_sdk"
version = "0.1.0"
edition = "2021"
publish = false

[dependencies]
serde = { version = "*", features = ["derive"] }
serde_json = "*"
uuid = { version = "*", features = ["v4"] }
chrono = "*"
reqwest = { version = "*", default-features = false, features = ["json", "rustls-tls", "stream"] }
tokio = { version = "*", features = ["rt", "sync", "time", "macros"] }
futures = "*"
async-trait = "*"
rusqlite = { version = "*", features = ["bundled"] }
jsonschema = { version = "*", default-features = false }
