[package]
name = "listing_downloader"
version = "0.1.0"
edition = "2021"
publish = false

[dependencies]
scraper = "*"
ureq = { version = "2", default-features = false }
reqwest = { version = "*", default-features = false }
tokio = { version = "1", features = ["macros", "rt-multi-thread"] }
colored = "2"
