[package]
name = "phira"
version = "0.1.0"
edition = "2021"
publish = false

[dependencies]
rand = "0.8"
semver = "1"
serde_json = "1"
serde = { version = "1", features = ["derive"] }
serde_yaml = "0.9"
anyhow = "1"
chrono = "0.4"
image = { version = "0.24", default-features = false, features = ["png", "jpeg"] }
lyon = "1"
macroquad = "0.4"
reqwest = { version = "0.12", default-features = false }
tap = "1"
tracing = "0.1"
