[package]
name = "noted_desktop"
version = "0.1.0"
edition = "2021"
publish = false

[dependencies]
anyhow = "1"
chrono = { version = "0.4", features = ["serde"] }
dirs = "*"
figment = { version = "0.10", features = ["toml"] }
iced = { version = "0.13", default-features = false }
inquire = "*"
polodb_core = "4"
serde = { version = "1", features = ["derive"] }
tracing = "0.1"
tracing-subscriber = { version = "0.3", features = ["env-filter"] }
