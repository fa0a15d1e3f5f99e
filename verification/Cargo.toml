[package]
name = "climb_visitor_scraper"
version = "1.0.0"
edition = "2021"
publish = false

[dependencies]
bson = "1"
chrono = "0.4"
clap = "2"
mongodb = "1"
reqwest = "0.10"
scraper = "0.12"
serde = { version = "1", features = ["derive"] }
serde_json = "1"
thiserror = "1"
tokio = { version = "0.2", features = ["full"] }
