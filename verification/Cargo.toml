[package]
name = "simple_web_server"
version = "0.1.0"
edition = "2021"
publish = false

[dependencies]
crossbeam-channel = "=0.5.17"
reqwest = { version = "*", default-features = false, features = ["blocking", "json"] }
rusqlite = { version = "*", features = ["bundled"] }
serde_json = "*"

[dev-dependencies]
crossbeam-utils = "=0.8.23"
