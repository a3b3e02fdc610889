[package]
name = "catalog_core"
version = "0.1.0"
edition = "2021"
publish = false

[dependencies]
bcrypt = "*"
jsonwebtoken = "9"
serde_json = "1"
chrono = "0.4"
serde = { version = "1", features = ["derive"] }
axum = { version = "0.6", features = ["headers"] }
tokio = { version = "1", features = ["full"] }
tower-http = { version = "0.4", features = ["cors"] }
dotenvy = "0.15"
tracing-subscriber = "0.3"
validator = { version = "0.16", features = ["derive"] }
regex = "1"
lazy_static = "1"
rayon = "1"
