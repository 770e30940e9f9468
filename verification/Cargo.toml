[package]
name = "opentok_server"
version = "0.1.0"
edition = "2021"
publish = false

[dependencies]
base64 = "0.13"
hmac-sha1 = "0.1"
jsonwebtoken = "9"
rand = "0.8"
rustc-serialize = "0.3"
serde = { version = "1", features = ["derive"] }
serde_json = "1"
surf = { version = "2", default-features = false, features = ["h1-client-rustls"] }
