[package]
name = "lang_rs"
version = "0.1.0"
edition = "2021"
publish = false

[dependencies]
crossterm = "=0.25.0"
reqwest = "=0.11.27"
rusqlite = "=0.28.0"
scraper = { version = "=0.17.1", features = ["deterministic"] }
serde = { version = "=1.0.229", features = ["derive"] }
serde_json = "=1.0.154"
tokio = { version = "=1.54.1", features = ["full"] }
tui = "=0.19.0"
