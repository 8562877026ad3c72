[package]
name = "musicview"
version = "0.1.0"
edition = "2021"
publish = false

[dependencies]
actix-cors = "0.7"
actix-web = { version = "4.9", features = ["rustls-0_23"] }
chrono = "0.4"
dotenv = "0.15"
env_logger = "0.11"
futures = "0.3"
mongodb = "2.8"
qstring = "0.7"
rustls = "0.23"
rustls-pemfile = "2"
serde = { version = "1", features = ["derive"] }
serde_json = "1"
sha2 = "0.10"
tokio = { version = "1", features = ["rt", "time", "macros"] }
