[package]
name = "autonomic"
version = "0.1.0"
edition = "2021"
publish = false

[dependencies]
rusqlite = { version = "*", features = ["bundled"] }
serde_json = "1"
url = "2"
time = "0.1"
tiny_http = "*"
curl = "0.4"
env_logger = "*"
log = "0.4"
