[package]
name = "user_auth"
version = "0.1.0"
edition = "2021"
publish = false

[dependencies]
rust-argon2 = "1"
base64-url = "2"
hmac = "0.12"
sha2 = "0.10"
uuid = { version = "1", features = ["v4"] }
rand = "0.8"
axum = "0.6"
tokio = { version = "1", features = ["full"] }
sqlx = { version = "0.7", default-features = false, features = ["runtime-tokio", "postgres"] }
serde = { version = "1", features = ["derive"] }
serde_json = "1"
ulid = "1"
dotenv = "0.15"
once_cell = "1"
time = "0.3"
