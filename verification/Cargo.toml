[package]
name = "lottery_scraper"
version = "0.1.0"
edition = "2021"
publish = false

[dependencies]
chrono = { version = "0.4", default-features = false, features = ["std"] }
csv = "1"
reqwest = { version = "*", features = ["blocking"] }
scraper = "*"
