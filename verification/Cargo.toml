[package]
name = "pane_confirm"
version = "0.1.0"
edition = "2021"
publish = false

[dependencies]
serde = { version = "*", features = ["derive"] }
owo-colors = "*"
zellij-tile = "*"
