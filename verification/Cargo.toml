[package]
name = "apodex"
version = "0.1.0"
edition = "2021"
publish = false

[dependencies]
chrono = "0.4"
scraper = "*"
regex = "1"
bitcode = "*"
zstd = "*"
lru = "*"
tokio = { version = "1", features = ["rt-multi-thread", "sync", "time", "macros"] }
reqwest = { version = "0.12", default-features = false, features = ["rustls-tls"] }
leaky-bucket = "*"
heed = "*"
futures = "0.3"
async-stream = "0.3"
async-trait = "0.1"
thiserror = "*"
anyhow = "1"
