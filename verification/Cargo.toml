[package]
name = "arnelify_server"
version = "0.1.0"
edition = "2021"
publish = false

[dependencies]
serde_json = "1"
neon = { version = "0.10.1", default-features = false, features = ["napi-6"] }
