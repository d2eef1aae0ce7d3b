[package]
name = "bugtrack"
version = "0.1.0"
edition = "2021"
publish = false

[dependencies]
bcrypt = "0.15"
jsonwebtoken = "9"
chrono = { version = "0.4", default-features = false, features = ["clock", "std"] }
serde = { version = "1", features = ["derive"] }
serde_json = "1"
sha2 = "0.10"
hex = "0.4"
actix-web = { version = "4", default-features = false, features = ["macros"] }
actix-web-httpauth = "0.8"
actix-rt = "2"
tokio = { version = "1", features = ["sync", "macros", "rt-multi-thread"] }
sqlx = { version = "0.7", default-features = false, features = ["sqlite", "runtime-tokio", "macros"] }
dotenv = "0.15"
env_logger = { version = "0.10", default-features = false }
once_cell = "1"
