[package]
name = "approval_modal"
version = "0.1.0"
edition = "2021"
publish = false

[dependencies]
ratatui = { version = "=0.29.0", features = ["unstable-rendered-line-info"] }
crossterm = "=0.28.1"
