[package]
name = "lzham"
version = "0.1.0"
edition = "2021"
publish = false

[dependencies]
lzham-sys = "*"
