[package]
name = "soulwhistle"
version = "0.1.0"
edition = "2021"
publish = false

[dependencies]
anyhow = "1"
cpal = "*"
crossterm = "0.28"
directories = "*"
parking_lot = "0.12"
rand = "0.9"
ratatui = "0.29"
serde = { version = "1", features = ["derive"] }
serde_json = "1"
textwrap = "0.16"
tiny_http = "0.12"
