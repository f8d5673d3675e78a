[package]
name = "simplex_noise"
version = "0.1.0"
edition = "2021"
publish = false

[dependencies]
bmp = "*"
rand = "0.8"
