[package]
name = "pebbles-game"
version = "0.1.0"
edition = "2021"
publish = false

[dependencies]
gstd = "*"
rand = "0.8"
