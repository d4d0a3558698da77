[package]
name = "dork"
version = "0.1.0"
edition = "2021"
publish = false

[dependencies]
url = "2"
scraper = "0.23"
reqwest = { version = "0.12", default-features = false, features = ["json", "rustls-tls"] }
serde = { version = "1", features = ["derive"] }
thiserror = "2"
async-trait = "0.1"
