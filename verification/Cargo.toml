[package]
name = "ascendia_server"
version = "0.1.0"
edition = "2021"
publish = false

[dependencies]
rand = "=0.8.8"
rand_chacha = "=0.3.1"
sha2 = "=0.10.9"
validator = "=0.16.1"
serde = { version = "=1.0.229", features = ["derive"] }
serde_json = "=1.0.154"
uuid = { version = "=1.29.0", features = ["v4", "serde"] }
chrono = { version = "=0.4.45", features = ["serde"] }
actix = "=0.13.5"
actix-web = { version = "=4.18.1", default-features = false, features = ["macros", "ws"] }
actix-web-actors = "=4.3.1"
actix-cors = "=0.7.2"
sqlx = { version = "=0.7.4", default-features = false, features = ["runtime-tokio", "postgres", "uuid", "chrono", "json", "macros", "migrate"] }
redis = { version = "=0.25.5", default-features = false, features = ["aio", "tokio-comp"] }
jsonwebtoken = "=9.3.1"
argon2 = "=0.5.3"
dotenvy = "=0.15.7"
env_logger = "=0.11.11"
log = "=0.4.35"
thiserror = "=1.0.69"
