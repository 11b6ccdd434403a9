[package]
name = "cmd_launcher"
version = "0.1.0"
edition = "2021"
publish = false

[dependencies]
zellij-tile = "*"
owo-colors = "*"
serde = { version = "*", features = ["derive"] }
