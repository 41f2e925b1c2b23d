[package]
name = "tab_service"
version = "0.1.0"
edition = "2021"
publish = false

[dependencies]
tokio = { version = "*", features = ["sync", "time", "rt", "macros"] }
crossterm = "*"
anyhow = "*"
