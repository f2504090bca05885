[package]
name = "bz_player"
version = "0.1.0"
edition = "2021"
publish = false

[dependencies]
rusqlite = { version = "*", features = ["bundled"] }
dirs = "*"
rodio = "*"
crossterm = "*"
ratatui = "*"

[dev-dependencies]
tempfile = "*"
