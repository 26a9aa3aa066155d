[package]
name = "product_service"
version = "0.1.0"
edition = "2021"
publish = false

[dependencies]
actix-cors = "*"
actix-web = "4"
env_logger = "*"
futures-util = "0.3"
serde = { version = "1", features = ["derive"] }
serde_json = "1"
