[package]
name = "fimfiction_api"
version = "0.1.0"
edition = "2021"
publish = false

[dependencies]
chrono = { version = "0.4", default-features = false }
serde = "1"
serde_json = "1"
thiserror = "1"
