[package]
name = "sleep_timer"
version = "0.1.0"
edition = "2021"
publish = false

[dependencies]
anyhow = "*"
chrono = "*"
directories = "*"
dirs = "*"
log = "*"
serde = { version = "*", features = ["derive"] }
serde_json = "*"
simplelog = "*"
