[package]
name = "fleet_management_backend"
version = "0.1.0"
edition = "2021"
publish = false

[dependencies]
uuid = { version = "=1.29.0", features = ["v4", "serde"] }
chrono = { version = "=0.4.45", features = ["serde"] }
redis = { version = "=0.23.5", default-features = false, features = ["tokio-comp"] }
serde = { version = "=1.0.229", features = ["derive"] }
serde_json = "=1.0.154"
actix-web = { version = "=4.18.1", default-features = false, features = ["macros"] }
actix-cors = "=0.6.5"
sqlx = { version = "=0.7.4", default-features = false, features = ["runtime-tokio", "postgres", "uuid", "chrono", "macros", "migrate"] }
tokio = { version = "=1.54.1", features = ["rt-multi-thread", "macros"] }
dotenv = "=0.15.0"
env_logger = "=0.10.2"
derive_more = "=0.99.20"
jsonwebtoken = "9"
moka = { version = "0.12", features = ["future"] }
