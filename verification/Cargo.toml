[package]
name = "easy_experiments"
version = "0.1.0"
edition = "2021"
publish = false

[dependencies]
actix-web = "=4.18.1"
chrono = "=0.4.45"
derive_more = "=0.99.20"
dotenvy = "=0.15.7"
duckdb = "1"
log = "=0.4.35"
moka = { version = "=0.12.16", features = ["future"] }
serde = { version = "=1.0.229", features = ["derive"] }
serde_json = "=1.0.154"
sqlx = { version = "=0.8.6", default-features = false, features = ["runtime-tokio", "sqlite", "macros", "migrate"] }
tokio = { version = "=1.54.1", features = ["macros", "rt-multi-thread", "sync", "time"] }
tracing = "=0.1.44"
tracing-subscriber = { version = "=0.3.23", features = ["env-filter", "json"] }
uuid = { version = "=1.29.0", features = ["v4"] }
