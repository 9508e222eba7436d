[package]
name = "imgproxy"
version = "0.1.0"
edition = "2021"
publish = false

[dependencies]
image = "0.25"
url = "2"
actix-web = "4"
reqwest = { version = "0.12", features = ["gzip", "brotli"] }
bytes = "1"
serde = { version = "1", features = ["derive"] }
log = "0.4"
env_logger = "0.11"
