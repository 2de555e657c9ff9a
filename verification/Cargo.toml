[package]
name = "tapedeck"
version = "0.1.0"
edition = "2021"
publish = false

[dependencies]
cpal = "*"
crossbeam-channel = "*"
crossterm = "*"
hound = "*"
ratatui = "*"
serde = { version = "*", features = ["derive"] }
serde_json = "*"
