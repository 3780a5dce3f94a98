[package]
name = "form_fields"
version = "0.1.0"
edition = "2021"
publish = false

[dependencies]
tokio = { version = "1", features = ["sync", "rt", "fs", "io-util"] }
async-tempfile = "*"
