[package]
name = "msgqueue"
version = "0.1.0"
edition = "2021"
publish = false

[dependencies]
chrono = "*"
actix-web = { version = "*", default-features = false }
serde = { version = "*", features = ["derive"] }
serde_json = "*"
