[package]
name = "line_login_api"
version = "0.1.0"
edition = "2021"
publish = false

[dependencies]
form_urlencoded = "1"
reqwest = { version = "0.12", default-features = false, features = ["rustls-tls"] }
serde = { version = "1", features = ["derive"] }
serde_json = "1"
