[package]
name = "takecopter"
version = "0.1.0"
edition = "2021"
publish = false

[dependencies]
chrono = "0.4"
rfd = { version = "0.15", default-features = false, features = ["gtk3"] }
rusqlite = { version = "0.32", features = ["bundled"] }
serde = { version = "1", features = ["derive"] }
serde_json = "1"
tauri = { version = "2", default-features = false }
uuid = { version = "1", features = ["v4"] }
