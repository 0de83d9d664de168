[package]
name = "auth_core"
version = "0.1.0"
edition = "2021"
publish = false

[dependencies]
bcrypt = "*"
axum = { version = "*", features = ["multipart"] }
serde = { version = "*", features = ["derive"] }
sqlx = { version = "*", default-features = false, features = ["runtime-tokio", "sqlite"] }
tokio = { version = "*", features = ["rt-multi-thread", "macros", "net", "fs"] }
tower-http = { version = "*", features = ["cors"] }
