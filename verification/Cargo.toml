[package]
name = "theme_ui"
version = "0.1.0"
edition = "2021"
publish = false

[dependencies]
anyhow = "=1.0.104"
parking_lot = "=0.12.5"
