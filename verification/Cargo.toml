[package]
name = "toml_migrate"
version = "0.1.0"
edition = "2021"
publish = false

[dependencies]
basic-toml = "0.1"
serde = { version = "1", features = ["derive"] }
