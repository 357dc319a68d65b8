[package]
name = "aigit"
version = "0.1.0"
edition = "2021"
publish = false

[dependencies]
serde_json = "1"
serde = { version = "1", features = ["derive"] }
clap = { version = "4", features = ["derive"] }
reqwest = { version = "0.12", default-features = false, features = ["blocking", "json"] }
log = "0.4"
env_logger = "0.11"
config = { version = "0.14", default-features = false, features = ["toml"] }
