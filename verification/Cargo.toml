[package]
name = "batchwise"
version = "0.1.0"
edition = "2021"
publish = false

[dependencies]
chrono = { version = "=0.4.45", default-features = false, features = ["std", "clock"] }
uuid = { version = "=1.29.0", features = ["v4"] }
serde = { version = "=1.0.229", features = ["derive"] }
serde_json = "=1.0.154"
thiserror = "=2.0.21"
anyhow = "=1.0.104"
dotenvy = "=0.15.7"
tracing = "=0.1.44"
tracing-subscriber = { version = "=0.3.23", features = ["env-filter", "json"] }
tokio = { version = "=1.54.1", features = ["macros", "rt-multi-thread", "net", "time", "sync"] }
axum = "=0.8.9"
ulid = "=1.2.1"
sqlx = { version = "=0.8.6", default-features = false, features = ["postgres", "runtime-tokio", "chrono", "uuid", "migrate", "json"] }
printpdf = { version = "=0.8.2", default-features = false }
image = { version = "=0.25.10", default-features = false, features = ["png"] }
validator = { version = "=0.20.0", features = ["derive"] }
redis = { version = "=1.8.1", features = ["tokio-comp", "connection-manager"] }
