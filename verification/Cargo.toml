[package]
name = "tary"
version = "0.1.0"
edition = "2021"
publish = false

[dependencies]
chrono = "*"
regex = "*"
serde = { version = "*", features = ["derive"] }
toml = "*"
dirs = "*"
clap = { version = "*", features = ["derive"] }
inquire = "*"
tokio = { version = "*", features = ["full"] }
axum = "*"
escpos = { version = "*", features = ["native_usb"] }
log = "*"
pretty_env_logger = "*"
