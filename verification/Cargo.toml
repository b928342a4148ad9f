[package]
name = "gamemstr"
version = "0.1.0"
edition = "2021"
publish = false

[dependencies]
num-to-words = "*"
uuid = { version = "*", features = ["v4"] }
serde = { version = "*", features = ["derive"] }
serde_json = "*"
