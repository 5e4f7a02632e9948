[package]
name = "marketplace_core"
version = "0.1.0"
edition = "2021"
publish = false

[dependencies]
anyhow = "=1.0.104"
axum = "=0.7.9"
chrono = { version = "=0.4.45", features = ["serde"] }
clap = { version = "4", features = ["derive"] }
dotenvy = "0.15"
jsonwebtoken = "9"
regex = "=1.13.1"
serde = { version = "=1.0.229", features = ["derive"] }
serde_json = "=1.0.154"
serde_yaml = "0.9"
sqlx = { version = "=0.7.4", default-features = false, features = ["runtime-tokio", "postgres", "chrono"] }
tokio = { version = "=1.54.1", features = ["rt-multi-thread", "macros", "process", "fs", "io-util", "sync"] }
tower = "*"
tower-http = { version = "*", features = ["cors", "trace", "compression-gzip"] }
tracing = "=0.1.44"
tracing-subscriber = { version = "0.3", features = ["env-filter"] }
url = "=2.5.8"
uuid = { version = "=1.29.0", features = ["v4"] }
