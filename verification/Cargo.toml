[package]
name = "file_manager"
version = "0.1.0"
edition = "2021"
publish = false

[dependencies]
fuzzy-matcher = "0.3"
crossterm = "0.25"
tui = "0.19"
