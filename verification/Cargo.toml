[package]
name = "s1500d"
version = "0.1.0"
edition = "2021"
publish = false

[dependencies]
rusb = "*"
serde = { version = "*", features = ["derive"] }
toml = "*"
log = "*"
env_logger = "*"
