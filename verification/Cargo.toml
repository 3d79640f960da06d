[package]
name = "speechmatics"
version = "0.1.0"
edition = "2021"
publish = false

[dependencies]
serde = { version = "*", features = ["derive"] }
serde_json = "*"
url = "*"
base64 = "*"
rand = "*"
tungstenite = "*"
http = "*"
reqwest = { version = "*", default-features = false, features = ["multipart"] }
