[package]
name = "scrap"
version = "0.1.0"
edition = "2021"
publish = false

[dependencies]
chrono = "*"
webm = "*"
nokhwa = "*"
serde = { version = "*", features = ["derive"] }
serde_json = "*"
lazy_static = "*"
