[package]
name = "scraped"
version = "0.1.0"
edition = "2021"
publish = false

[dependencies]
scraper = "*"
url = "2"
regex = "1"
serde = { version = "1", features = ["derive"] }
serde_json = "1"
reqwest = { version = "0.12", default-features = false, features = ["rustls-tls"] }
tokio = { version = "1", features = ["macros", "rt-multi-thread", "fs"] }
clap = { version = "4", features = ["derive"] }
color-eyre = "0.6"
tracing = "0.1"
tracing-subscriber = "0.3"
dotenv = "0.15"
thiserror = "1"
