[package]
name = "wordle"
version = "0.1.0"
edition = "2021"
publish = false

[dependencies]
rand = "0.8"
tokio = { version = "1", features = ["full"] }
crossterm = { version = "*", features = ["event-stream"] }
ratatui = "*"
color-eyre = "*"
futures = "0.3"
