[package]
name = "fatum_api_rs"
version = "0.1.0"
edition = "2021"
publish = false

[dependencies]
validator = "0.20"
argon2 = { version = "0.5", features = ["std"] }
jsonwebtoken = "9"
serde_json = { version = "1", features = ["preserve_order"] }
uuid = "1"
chrono = "0.4"
serde = { version = "1", features = ["derive"] }
axum = "0.7"
tokio = { version = "1", features = ["macros", "rt-multi-thread", "net"] }
sqlx = { version = "0.8", default-features = false, features = ["postgres", "runtime-tokio", "uuid"] }
secrecy = "0.10"
config = { version = "0.14", default-features = false, features = ["yaml"] }
anyhow = "1"
thiserror = "1"
