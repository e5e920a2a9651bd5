[package]
name = "gd_backend"
version = "0.1.0"
edition = "2021"
publish = false

[dependencies]
md5 = "0.7"
rocket = "0.5"
rocket_db_pools = { version = "0.2", features = ["sqlx_postgres"] }
sqlx = { version = "0.7", features = ["postgres", "uuid", "chrono", "runtime-tokio"] }
uuid = { version = "1", features = ["v4"] }
jsonwebtoken = "9"
chrono = { version = "0.4", features = ["serde"] }
serde = { version = "1", features = ["derive"] }
serde_json = "1"
