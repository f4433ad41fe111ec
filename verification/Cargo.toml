[package]
name = "kronos"
version = "0.1.0"
edition = "2021"
publish = false

[dependencies]
metadata = "0.1"
rodio = "0.17"
serde = { version = "1", features = ["derive"] }
toml = "*"
tui = "0.19"
