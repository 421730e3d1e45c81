[package]
name = "sarbot"
version = "0.1.0"
edition = "2021"
publish = false

[dependencies]
chrono = "0.4"
dotenv = "0.15"
hex = "0.4"
hmac = "0.11"
sha2 = "0.9"
job_scheduler = "1"
log = "0.4"
log4rs = "1"
reqwest = { version = "0.11", default-features = false, features = ["blocking", "json", "rustls-tls"] }
serde = { version = "1", features = ["derive"] }
serde_json = "1"
ta-lib-wrapper = "*"
