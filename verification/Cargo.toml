[package]
name = "perps"
version = "0.1.0"
edition = "2021"
publish = false

[dependencies]
uuid = { version = "=1.29.1", features = ["v4", "serde"] }
chrono = { version = "=0.4.45", features = ["serde"] }
rust_decimal = { version = "=1.43.0", features = ["serde"] }
argon2 = "=0.5.3"
jsonwebtoken = "=9.3.1"
serde = { version = "=1.0.229", features = ["derive"] }
serde_json = { version = "=1.0.154", features = ["raw_value"] }
sqlx = { version = "=0.8.6", default-features = false, features = ["runtime-tokio", "postgres", "uuid", "chrono", "rust_decimal", "migrate"] }
axum = "=0.8.9"
tokio = { version = "=1.54.1", features = ["full"] }
anyhow = "=1.0.104"
dotenvy = "=0.15.7"
dotenv = "=0.15.0"
tracing-subscriber = "=0.3.23"
actix-web = { version = "=4.18.1", default-features = false, features = ["macros"] }
