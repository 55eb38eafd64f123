[package]
name = "backend"
version = "0.1.0"
edition = "2021"
publish = false

[dependencies]
sha2 = "*"
hex = "*"
uuid = { version = "*", features = ["v4", "serde"] }
chrono = { version = "*", features = ["serde"] }
serde = { version = "*", features = ["derive"] }
axum = { version = "*", features = ["multipart"] }
tokio = { version = "*", features = ["fs", "io-util", "rt", "macros"] }
sqlx = { version = "*", default-features = false, features = ["runtime-tokio", "postgres", "uuid", "chrono", "derive"] }
