[package]
name = "doppler"
version = "0.1.0"
edition = "2021"
publish = false

[dependencies]
rand = "0.9"
serde = { version = "1", features = ["derive"] }
serde_json = "1"
strsim = "0.11"
ratatui = "*"
crossterm = "*"
rodio = "*"
