[package]
name = "healthdesk"
version = "0.1.0"
edition = "2021"
publish = false

[dependencies]
chrono = "=0.4.45"
dirs = "=7.0.0"
rand = "=0.9.5"
reqwest = { version = "0.12", features = ["json"] }
rodio = "0.20"
rusqlite = { version = "*", features = ["bundled"] }
serde = { version = "=1.0.229", features = ["derive"] }
serde_json = "=1.0.154"
tokio = { version = "=1.54.1", features = ["time", "sync", "rt", "macros"] }
uuid = { version = "=1.29.0", features = ["v4"] }
