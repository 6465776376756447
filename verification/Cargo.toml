[package]
name = "git_browser"
version = "0.1.0"
edition = "2021"
publish = false

[dependencies]
git2 = { version = "0.18", default-features = false }
ratatui = "0.26"
crossterm = "0.27"
