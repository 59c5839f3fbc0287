[package]
name = "logi_lcd"
version = "0.1.0"
edition = "2021"
publish = false

[dependencies]
logitech-lcd-sys = "*"
