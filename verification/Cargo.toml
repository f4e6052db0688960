[package]
name = "lsr"
version = "0.1.0"
edition = "2021"
publish = false

[dependencies]
chrono = "0.4"
clap = { version = "4", features = ["derive"] }
owo-colors = { version = "*", features = ["supports-colors"] }
supports-color = "*"
users = "0.11"
