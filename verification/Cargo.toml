[package]
name = "tui_coach"
version = "0.1.0"
edition = "2021"
publish = false

[dependencies]
chrono = "0.4"
rusqlite = { version = "*", features = ["bundled"] }
crossterm = "*"
ratatui = "*"
clap = { version = "4", features = ["derive"] }
tracing-subscriber = "*"
