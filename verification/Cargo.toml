[package]
name = "photo_catalog"
version = "0.1.0"
edition = "2021"
publish = false

[dependencies]
anyhow = "=1.0.104"
base64 = "=0.23.1"
image = "=0.25.10"
kamadak-exif = "=0.6.1"
reqwest = { version = "=0.13.5", default-features = false }
rusqlite = { version = "=0.40.2", features = ["bundled", "fallible_uint"] }
serde_json = "=1.0.151"
tokio = { version = "=1.53.2", features = ["rt-multi-thread"] }
walkdir = "=2.5.0"
