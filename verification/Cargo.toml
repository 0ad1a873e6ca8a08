[package]
name = "vasili"
version = "0.1.0"
edition = "2021"
publish = false

[dependencies]
anyhow = "*"
chrono = "*"
clap = { version = "*", features = ["derive"] }
crossterm = "*"
csv = "*"
default-net = "*"
rand = "*"
ratatui = "*"
serde = { version = "*", features = ["derive"] }
surge-ping = "*"
tokio = { version = "*", features = ["full"] }
