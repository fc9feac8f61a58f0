[package]
name = "doido_auth"
version = "0.1.0"
edition = "2021"
publish = false

[dependencies]
base64 = "=0.22.1"
totp-lite = "=2.0.1"
uuid = { version = "=1.29.0", features = ["v4"] }
chrono = "=0.4.45"
jsonwebtoken = "=9.3.1"
serde = { version = "=1.0.229", features = ["derive"] }
serde_json = { version = "=1.0.154", features = ["preserve_order"] }
serde_norway = "=0.9.42"
thiserror = "=2.0.21"
ureq = { version = "=3.5.1", features = ["json"] }
http = "=1.5.0"
