[package]
name = "match_engine"
version = "0.1.0"
edition = "2021"
publish = false

[dependencies]
rand = "0.8"
serde = { version = "1", features = ["derive"] }
serde_json = "1"
rusqlite = "0.32"
chrono = "0.4"
tokio = { version = "1", features = ["time"] }
tauri = { version = "2", default-features = false }
