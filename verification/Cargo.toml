[package]
name = "btspecs"
version = "0.1.0"
edition = "2021"
publish = false

[dependencies]
anyhow = "1"
env_logger = "*"
log = "0.4"
reqwest = { version = "*", features = ["blocking"] }
scraper = "*"
serde_json = "1"
tempfile = "3"

[dev-dependencies]
regex = "1"
