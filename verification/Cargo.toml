[package]
name = "metrics-core"
version = "0.1.0"
edition = "2021"
publish = false

[dependencies]
argon2 = { version = "=0.5.3", features = ["std"] }
axum = "=0.7.9"
chrono = { version = "=0.4.45", features = ["serde"] }
jsonwebtoken = "=9.3.1"
libloading = "=0.8.9"
rand = "=0.8.8"
reqwest = { version = "=0.12.28", default-features = false, features = ["json"] }
serde = { version = "=1.0.229", features = ["derive"] }
serde_json = { version = "=1.0.154", features = ["preserve_order"] }
sysinfo = "=0.32.1"
tokio = { version = "=1.54.1", features = ["full"] }
tower-http = { version = "=0.6.11", features = ["cors"] }
tracing-subscriber = { version = "=0.3.23", features = ["env-filter"] }
