[package]
name = "game_soul"
version = "0.1.0"
edition = "2021"
publish = false

[dependencies]
actix-cors = "*"
actix-web = "4"
anyhow = "1"
chrono = { version = "0.4", features = ["serde"] }
dotenv = "0.15"
env_logger = "*"
futures = "0.3"
log = "0.4"
neo4rs = "0.7"
serde = { version = "1", features = ["derive"] }
serde_json = "1"
thiserror = "1"
uuid = { version = "1", features = ["v4"] }
validator = { version = "*", features = ["derive"] }
