[package]
name = "ws_app"
version = "0.1.0"
edition = "2021"
publish = false

[dependencies]
chrono = { version = "0.4", default-features = false, features = ["std", "clock", "serde"] }
serde = { version = "1", features = ["derive"] }
anyhow = "1"
log = "0.4"
env_logger = "0.10"
futures-util = "0.3"
actix-web = "4"
actix-service = "2"
actix-cors = "0.6"
sqlx = { version = "0.6", default-features = false, features = ["mysql", "runtime-actix-rustls", "chrono", "macros"] }
juniper = { version = "0.15", default-features = false, features = ["chrono"] }
juniper_actix = "0.4"
dataloader = "0.16"
