[package]
name = "user_crud"
version = "0.1.0"
edition = "2021"
publish = false

[dependencies]
bcrypt = "*"
validator = "*"
axum = "*"
serde = { version = "*", features = ["derive"] }
sqlx = { version = "*", default-features = false, features = ["runtime-tokio", "postgres", "macros"] }
tokio = { version = "*", features = ["rt-multi-thread", "macros"] }
