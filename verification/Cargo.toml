[package]
name = "show"
version = "0.1.0"
edition = "2021"
publish = false

[dependencies]
json = "0.12"
chrono = "0.4"
rust_util = "*"
reqwest = { version = "0.12", default-features = false, features = ["blocking", "rustls-tls"] }
