[package]
name = "triforce"
version = "0.1.0"
edition = "2021"
publish = false

[dependencies]
canyon_sql = { version = "=0.5.1", features = ["postgres", "migrations"] }
chrono = { version = "=0.4.45", features = ["serde"] }
color-eyre = "=0.6.5"
cron = "=0.17.0"
itertools = "=0.15.0"
reqwest = { version = "=0.12.28", default-features = false, features = ["rustls-tls"] }
serde = { version = "=1.0.229", features = ["derive"] }
serde_json = "=1.0.154"
tokio = { version = "=1.54.1", features = ["macros", "rt-multi-thread", "time", "sync", "signal"] }
