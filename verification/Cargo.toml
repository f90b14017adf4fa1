[package]
name = "items_api"
version = "0.1.0"
edition = "2021"
publish = false

[dependencies]
axum = "0.8"
dotenv = "0.15"
serde = { version = "1", features = ["derive"] }
sqlx = { version = "0.8", default-features = false, features = ["postgres", "runtime-tokio", "derive"] }
tokio = { version = "1", features = ["full"] }
