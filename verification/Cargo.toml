[package]
name = "yue"
version = "0.1.0"
edition = "2021"
publish = false

[dependencies]
hound = "3.5"
rustfft = "6"
raylib = "5"
rfd = "*"
