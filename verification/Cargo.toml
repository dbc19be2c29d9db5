[package]
name = "embedded_term"
version = "0.1.0"
edition = "2021"
publish = false

[dependencies]
embedded-graphics = "0.8"
vte = "0.13"
fontdue = "0.9"
ratatui = { version = "0.30", default-features = false }
