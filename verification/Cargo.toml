[package]
name = "ksfx"
version = "0.1.0"
edition = "2021"
publish = false

[dependencies]
serde = { version = "*", features = ["derive"] }
serde_json = "*"
rand = "*"
rodio = "*"
device_query = "*"
