[package]
name = "dingtalk"
version = "0.1.0"
edition = "2021"
publish = false

[dependencies]
url = "2"
deadpool-redis = "*"
reqwest = { version = "*", features = ["json"] }
serde = { version = "1", features = ["derive"] }
serde_json = "1"
log = "0.4"
