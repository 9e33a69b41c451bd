[package]
name = "imageboard"
version = "0.1.0"
edition = "2021"
publish = false

[dependencies]
regex = "1"
jsonwebtoken = { version = "9", default-features = false }
chrono = "0.4"
serde = { version = "1", features = ["derive"] }
serde_json = "1"
actix-web = { version = "4", default-features = false, features = ["macros"] }
actix-rt = "2"
actix-web-httpauth = "0.8"
sqlx = { version = "0.8", default-features = false, features = ["runtime-tokio", "postgres", "chrono"] }
futures = "0.3"
anyhow = "1"
dotenv = "0.15"
listenfd = "1"
