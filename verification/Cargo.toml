[package]
name = "nexus_chat"
version = "0.1.0"
edition = "2021"
publish = false

[dependencies]
anyhow = "=1.0.104"
arboard = { version = "=3.7.0", default-features = false }
base64 = "=0.22.1"
chrono = "=0.4.45"
open = "=5.4.5"
ratatui = { version = "=0.29.0", default-features = false }
reqwest = { version = "=0.12.28", default-features = false, features = ["json"] }
rusqlite = { version = "=0.32.1", features = ["bundled"] }
serde = { version = "=1.0.229", features = ["derive"] }
serde_json = "=1.0.154"
sha2 = "=0.10.9"
tokio = { version = "=1.54.1", features = ["macros", "rt", "sync", "time"] }
tui-textarea = { version = "=0.7.0", default-features = false, features = ["no-backend"] }
uuid = { version = "=1.29.0", features = ["v4"] }
