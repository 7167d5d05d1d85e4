[package]
name = "nextion_flash"
version = "0.1.0"
edition = "2021"
publish = false

[dependencies]
serial2 = "*"
clap = { version = "*", features = ["derive"] }
crossterm = "*"
env_logger = "*"
indicatif = "*"
