[package]
name = "emu16"
version = "0.1.0"
edition = "2021"
publish = false

[dependencies]
regex = "*"
anyhow = "*"
crossterm = "*"
ratatui = "*"
