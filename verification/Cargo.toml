[package]
name = "codebeats"
version = "0.1.0"
edition = "2021"
publish = false

[dependencies]
hound = "*"
cpal = "*"
device_query = "*"
clap = { version = "*", features = ["derive"] }
serde = { version = "*", features = ["derive"] }
serde_json = "*"
