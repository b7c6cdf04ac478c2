[package]
name = "my_errors"
version = "0.1.0"
edition = "2021"
publish = false

[dependencies]
actix-http = "1.0"
actix-rt = "1.0"
actix-web = { version = "2.0", default-features = false }
bytes = "0.5"
chrono = "=0.4.19"
env_logger = "0.7"
failure = "0.1"
futures = "0.3"
log = "0.4"
serde = { version = "1.0", features = ["derive"] }
serde_json = "1.0"
