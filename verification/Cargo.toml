[package]
name = "notes_api"
version = "0.1.0"
edition = "2021"
publish = false

[dependencies]
axum = "0.6"
chrono = { version = "0.4", features = ["serde"] }
dotenv = "0.15"
serde = { version = "1", features = ["derive"] }
serde_json = "1"
sqlx = { version = "0.7", default-features = false, features = ["runtime-tokio", "postgres", "chrono", "uuid"] }
tokio = { version = "1", features = ["full"] }
tower-http = { version = "0.4", features = ["cors"] }
uuid = { version = "1", features = ["serde", "v4"] }
