[package]
name = "makrust"
version = "0.1.0"
edition = "2021"
publish = false

[dependencies]
argon2 = { version = "=0.5.3", features = ["std"] }
validator = "=0.21.0"
chrono = { version = "=0.4.45", features = ["serde"] }
sqlx = { version = "=0.8.6", default-features = false, features = ["runtime-tokio", "postgres", "uuid", "chrono", "ipnetwork", "migrate", "macros"] }
axum = "=0.8.9"
axum-extra = { version = "=0.10.3", features = ["cookie"] }
tokio = { version = "=1.54.1", features = ["full"] }
tower-http = { version = "=0.6.11", features = ["cors"] }
serde = { version = "=1.0.229", features = ["derive"] }
config = { version = "=0.15.27", default-features = false, features = ["yaml"] }
dotenv = "=0.15.0"
time = "=0.3.55"
postmark = { version = "=2.0.1", features = ["reqwest"] }
