[package]
name = "star_trader"
version = "0.1.0"
edition = "2021"
publish = false

[dependencies]
rand = "0.8.5"
rand_chacha = { version = "0.3.1", features = ["serde1"] }
serde = { version = "1", features = ["derive"] }
serde_json = "1"
ratatui = "0.29"
crossterm = "0.28"
log = "0.4"
env_logger = "0.11"
anyhow = "1"
