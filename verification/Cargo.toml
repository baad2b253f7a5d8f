[package]
name = "dp832"
version = "0.1.0"
edition = "2021"
publish = false

[dependencies]
anyhow = "1"
crossterm = "0.28"
dirs = "6"
ratatui = "0.29"
