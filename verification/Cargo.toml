[package]
name = "snitch"
version = "0.1.0"
edition = "2021"
publish = false

[dependencies]
chrono = "=0.4.45"
cron = "=0.17.0"
uuid = { version = "=1.29.0", features = ["v4"] }
fake = "=5.1.0"
paris = { version = "=1.5.15", features = ["macros"] }
serde = { version = "=1.0.229", features = ["derive"] }
rocket = { version = "=0.5.2", features = ["json"] }
microrm = "=0.6.3"
ureq = { version = "=3.5.1", features = ["json"] }
