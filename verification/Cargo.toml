[package]
name = "show_scraper"
version = "0.1.0"
edition = "2021"
publish = false

[dependencies]
chrono = "=0.4.45"
select = "=0.6.1"
table-extract = "=0.2.3"
scraper = { version = "=0.13.0", features = ["deterministic"] }
reqwest = { version = "=0.11.27", default-features = false, features = ["rustls-tls"] }
serde = { version = "=1.0.229", features = ["derive"] }
rocket = { version = "=0.5.2", features = ["json"] }

[dev-dependencies]
serde_json = "=1.0.154"
