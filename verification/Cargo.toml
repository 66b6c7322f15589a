[package]
name = "autonix"
version = "0.1.0"
edition = "2021"
publish = false

[dependencies]
serde_json = "*"
toml = "*"
serde_yaml = "*"
serde = { version = "*", features = ["derive"] }
clap = { version = "*", features = ["derive"] }
