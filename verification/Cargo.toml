[package]
name = "session_manager"
version = "0.1.0"
edition = "2021"
publish = false

[dependencies]
ansi_term = "=0.12.1"
clap = "=4.6.7"
crossterm = "=0.27.0"
ratatui = "=0.30.2"
serde = { version = "=1.0.229", features = ["derive"] }
serde_json = "=1.0.154"
tui-textarea = "=0.4.0"
