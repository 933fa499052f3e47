[package]
name = "tweet_nab"
version = "0.1.0"
edition = "2021"
publish = false

[dependencies]
serde = { version = "=1.0.229", features = ["derive"] }
serde_json = "=1.0.151"
futures-util = "=0.3.34"
tweet-scraper = "=0.1.2"
tokio = { version = "=1.53.2", features = ["macros", "rt-multi-thread"] }
