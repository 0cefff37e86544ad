[package]
name = "player_backend"
version = "0.1.0"
edition = "2021"
publish = false

[dependencies]
base64 = "0.22"
lofty = "0.22"
reqwest = "0.12"
serde = { version = "1", features = ["derive"] }
serde_json = "1"
url = "2"
