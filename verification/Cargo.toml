[package]
name = "auth_service"
version = "0.1.0"
edition = "2021"
publish = false

[dependencies]
argon2 = { version = "0.5", features = ["std"] }
axum = "0.7"
axum-extra = { version = "0.9", features = ["cookie"] }
chrono = "0.4"
color-eyre = "0.6"
jsonwebtoken = "9"
rand = "0.8"
redis = "0.25"
reqwest = { version = "0.12", default-features = false, features = ["json", "cookies", "rustls-tls"] }
secrecy = "0.8"
serde = { version = "1", features = ["derive"] }
serde_json = "1"
sqlx = { version = "0.8", default-features = false, features = ["runtime-tokio-rustls", "postgres", "migrate"] }
thiserror = "1"
tokio = { version = "1", features = ["full"] }
tower-http = { version = "0.5", features = ["fs", "cors", "trace"] }
tracing = "0.1"
uuid = { version = "1", features = ["v4"] }
validator = "0.18"

[dev-dependencies]
fake = "2"
quickcheck = "1"
