[package]
name = "tui_csv_viewer"
version = "0.1.0"
edition = "2021"
publish = false

[dependencies]
anyhow = "1"
crossterm = "0.28"
csv = "1"
ratatui = "0.29"
