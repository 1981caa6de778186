[package]
name = "aw-watcher-network"
version = "0.1.0"
edition = "2021"
publish = false

[dependencies]
ipnet = "2"
serde = { version = "1", features = ["derive"] }
serde_json = "1"
serde_yaml = "0.9"
clap = { version = "4", features = ["derive"] }
chrono = "0.4"
default-net = "*"
reqwest = { version = "0.12", features = ["blocking", "json"] }
aw-client-rust = "*"
aw-models = "*"
