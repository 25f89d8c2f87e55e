[package]
name = "asset_hub"
version = "0.1.0"
edition = "2021"
publish = false

[dependencies]
rusqlite = { version = "0.31", features = ["bundled"] }
serde = { version = "1", features = ["derive"] }
serde_json = "1"
walkdir = "2"
image = "0.24"
psd = "0.3"
whoami = "1"
tokio = { version = "1", features = ["rt", "rt-multi-thread", "sync", "macros"] }
reqwest = { version = "0.11", features = ["stream"] }
zip = "0.6"
futures-util = "0.3"
