[package]
name = "blog"
version = "0.1.0"
edition = "2021"
publish = false

[dependencies]
actix-web = "4"
actix-files = "0.6"
libsql = { version = "*", default-features = false, features = ["remote"] }
serde = { version = "1", features = ["derive"] }
dotenvy = "0.15"
env_logger = "0.11"
