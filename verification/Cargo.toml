[package]
name = "text_intelligence"
version = "0.1.0"
edition = "2021"
publish = false

[dependencies]
axum = "=0.7.9"
chrono = "=0.4.45"
dotenvy = "=0.15.7"
jsonwebtoken = "=9.3.1"
rand = "=0.8.8"
reqwest = { version = "=0.12.28", default-features = false, features = ["json", "rustls-tls"] }
serde = { version = "=1.0.229", features = ["derive"] }
serde_json = { version = "=1.0.154", features = ["raw_value"] }
tokio = { version = "=1.54.1", features = ["full"] }
toml = "=0.8.23"
tower-http = { version = "=0.5.2", features = ["cors"] }
url = "=2.5.8"
urlencoding = "=2.1.3"
