[package]
name = "exam_server"
version = "0.1.0"
edition = "2021"
publish = false

[dependencies]
bcrypt = "0.15"
rust-crypto = "0.2"
rand = "0.8"
urlencoding = "2"
serde_json = "1"
serde = { version = "1", features = ["derive"] }
serde_yaml = "0.9"
chrono = { version = "0.4", features = ["serde"] }
tokio = { version = "1", features = ["full"] }
axum = "0.7"
askama = "0.12"
askama_axum = "0.4"
tower-http = { version = "0.5", features = ["auth", "cors"] }
futures-util = "0.3"
redis = "0.25"
sqlx = { version = "0.7", default-features = false, features = ["runtime-tokio", "mysql", "chrono", "json", "macros"] }
