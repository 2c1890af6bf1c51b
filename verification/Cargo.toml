[package]
name = "mini_textviewer"
version = "0.1.0"
edition = "2021"
publish = false

[dependencies]
termion = "*"
