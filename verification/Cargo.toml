[package]
name = "authgate"
version = "0.1.0"
edition = "2021"
publish = false

[dependencies]
argon2 = "=0.6.0"
jsonwebtoken = { version = "=11.1.0", features = ["rust_crypto"] }
uuid = { version = "=1.27.0", features = ["v4"] }
data-encoding = "=2.11.1"
chrono = "*"
serde = { version = "*", features = ["derive"] }
serde_json = "*"
axum = { version = "*", features = ["multipart"] }
tokio = { version = "*", features = ["full"] }
sqlx = { version = "*", default-features = false, features = ["runtime-tokio", "postgres", "chrono", "uuid"] }
rust-s3 = { version = "*", default-features = false, features = ["tokio-rustls-tls"] }
dotenvy = "*"
tower-http = { version = "*", features = ["cors", "trace"] }
