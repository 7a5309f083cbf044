[package]
name = "backend"
version = "0.1.0"
edition = "2021"
publish = false

[dependencies]
mongodb = "2"
chrono = "0.4"
serde = { version = "1", features = ["derive"] }
serde_json = "1"
actix-web = "4"
actix-cors = "*"
dotenv = "0.15"
tracing = "0.1"
tracing-subscriber = "0.3"
