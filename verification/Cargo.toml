[package]
name = "cache_server"
version = "0.1.0"
edition = "2021"
publish = false

[dependencies]
chrono = "0.4"
actix-web = { version = "4", default-features = false, features = ["macros"] }
aws-config = { version = "1", default-features = false, features = ["rt-tokio", "rustls"] }
aws-sdk-s3 = { version = "1", default-features = false, features = ["rt-tokio", "rustls"] }
env_logger = "0.11"
futures = "0.3"
log = "0.4"
serde = { version = "1", features = ["derive"] }
toml = "0.8"
