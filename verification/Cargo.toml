[package]
name = "remote_build"
version = "0.1.0"
edition = "2021"
publish = false

[dependencies]
uuid = { version = "1", features = ["v4"] }
base64 = "0.22"
serde = { version = "1", features = ["derive"] }
serde_json = "1"
actix-web = "4"
actix-cors = "0.7"
env_logger = "0.11"
tokio = { version = "1", features = ["rt", "macros", "time"] }
walkdir = "2"
zip = { version = "2", default-features = false, features = ["deflate"] }
