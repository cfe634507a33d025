[package]
name = "bind9_rest"
version = "0.1.0"
edition = "2021"
publish = false

[dependencies]
hickory-proto = { version = "=0.26.3", features = ["dnssec-ring"] }
hickory-net = { version = "=0.26.3", features = ["dnssec-ring"] }
tokio = { version = "=1.54.1", features = ["rt-multi-thread", "macros", "net", "time"] }
axum = "=0.7.9"
serde = { version = "=1.0.229", features = ["derive"] }
serde_json = "=1.0.154"
sqlx = { version = "=0.8.6", default-features = false, features = ["runtime-tokio", "postgres", "uuid", "chrono"] }
uuid = "=1.29.0"
chrono = "=0.4.45"
tracing = "=0.1.44"
tracing-subscriber = { version = "=0.3.23", features = ["env-filter"] }
stable-eyre = "=0.2.2"
