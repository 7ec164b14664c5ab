[package]
name = "procband"
version = "0.1.0"
edition = "2021"
publish = false

[dependencies]
crossterm = { version = "0.28", features = ["event-stream"] }
futures = "0.3"
libc = "0.2"
ratatui = "0.29"
tokio = { version = "1", features = ["full"] }
