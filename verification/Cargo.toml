[package]
name = "backend"
version = "0.1.0"
edition = "2021"
publish = false

[dependencies]
base64 = "0.22"
hex = "0.4"
sha2 = "0.10"
rand = "0.9"
bcrypt = "*"
serde = { version = "1", features = ["derive"] }
serde_json = "1"
jsonwebtoken = "9"
chrono = "0.4"
uuid = { version = "1", features = ["v4", "serde"] }
anyhow = "1"
