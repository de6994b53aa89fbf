[package]
name = "one_archive"
version = "0.1.0"
edition = "2021"
publish = false

[dependencies]
sha2 = "0.10"
chrono = "0.4"
serde = { version = "1", features = ["derive"] }
serde_json = "1"
walkdir = "2"
tar = "0.4"
rusqlite = { version = "*", features = ["bundled"] }
anyhow = "1"
log = "0.4"
