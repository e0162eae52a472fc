[package]
name = "schedulinator"
version = "0.1.0"
edition = "2021"
publish = false

[dependencies]
actix-web = "=4.18.1"
chrono = { version = "=0.4.45", features = ["serde"] }
cron = "=0.12.1"
deadpool-postgres = "=0.11.0"
deadpool-redis = "=0.14.0"
futures = "=0.3.34"
reqwest = "=0.11.27"
serde = { version = "=1.0.229", features = ["derive"] }
serde_json = "=1.0.154"
sql-builder = "=3.1.1"
tokio = { version = "=1.54.1", features = ["full"] }
