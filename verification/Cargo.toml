[package]
name = "buildingstore"
version = "0.1.0"
edition = "2021"
publish = false

[dependencies]
chrono = "0.4"
uuid = { version = "1", features = ["v4"] }
sqlx = { version = "*", default-features = false, features = ["any", "runtime-tokio"] }
tokio = { version = "1", features = ["sync", "rt", "macros"] }
serde = { version = "1", features = ["derive"] }
dotenvy = "0.15"
