[package]
name = "jwks"
version = "0.1.0"
edition = "2021"
publish = false

[dependencies]
base64 = "0.22"
jsonwebtoken = "9"
serde_json = "1"
reqwest = { version = "*", default-features = false }
