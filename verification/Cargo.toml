[package]
name = "append_only_data"
version = "0.1.0"
edition = "2021"
publish = false

[dependencies]
multibase = "*"
serde = { version = "*", features = ["derive"] }
