[package]
name = "anki_tui"
version = "0.1.0"
edition = "2021"
publish = false

[dependencies]
html2text = "*"
ureq = { version = "3", features = ["json"] }
serde = { version = "1", features = ["derive"] }
serde_json = "1"
ratatui = "0.29"
crossterm = "0.28"
