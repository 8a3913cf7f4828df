[package]
name = "talent_fetch"
version = "0.1.0"
edition = "2021"
publish = false

[dependencies]
anyhow = "*"
reqwest = { version = "*", default-features = false }
scraper = "*"
tokio = { version = "*", features = ["sync"] }
