[package]
name = "opbridge"
version = "0.1.0"
edition = "2021"
publish = false

[dependencies]
bytes = "*"
dashmap = "*"
opendal = { version = "*", default-features = false, features = ["services-memory"] }
reqwest = { version = "*", default-features = false, features = ["rustls-tls"] }
serde_json = "*"
sqlx = { version = "*", default-features = false, features = ["runtime-tokio", "tls-rustls", "sqlite", "mysql", "postgres", "json"] }
tokio = { version = "*", features = ["rt-multi-thread", "time", "sync"] }
url = "*"
