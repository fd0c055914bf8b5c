[package]
name = "game_zone"
version = "0.1.0"
edition = "2021"
publish = false

[dependencies]
anyhow = "1"
askama = "0.12"
askama_axum = "0.4"
aws-config = "1"
aws-sdk-s3 = "1"
axum = "0.7"
axum-extra = { version = "0.9", features = ["typed-header"] }
bcrypt = "0.15"
chrono = "0.4"
cookie = "0.18"
dotenv = "0.15"
jsonwebtoken = "9"
serde = { version = "1", features = ["derive"] }
serde_json = { version = "1", features = ["raw_value"] }
sqlx = { version = "0.7", default-features = false, features = ["postgres", "runtime-tokio", "macros"] }
time = "0.3"
tokio = { version = "1", features = ["full"] }
tower = { version = "0.4", features = ["timeout"] }
tower-http = { version = "0.5", features = ["cors", "fs"] }
tracing = "0.1"
tracing-subscriber = { version = "0.3", features = ["env-filter"] }
