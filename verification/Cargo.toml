[package]
name = "jpdict"
version = "0.1.0"
edition = "2021"
publish = false

[dependencies]
scraper = "*"
rusqlite = { version = "*", features = ["bundled"] }
axum = "*"
tokio = { version = "*", features = ["full"] }
serde = { version = "*", features = ["derive"] }
serde_json = "*"
