[package]
name = "free_todo"
version = "0.1.0"
edition = "2021"
publish = false

[dependencies]
axum = "0.7"
env_logger = "0.11"
flate2 = "1"
futures-util = "0.3"
libc = "0.2"
log = "0.4"
png = "0.17"
rand = "0.8"
reqwest = { version = "0.12", features = ["json", "stream"] }
serde = { version = "1", features = ["derive"] }
serde_json = "1"
tar = "0.4"
tokio = { version = "1", features = ["full"] }
zip = "0.6"
