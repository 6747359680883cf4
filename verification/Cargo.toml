[package]
name = "avif_serialize"
version = "0.1.0"
edition = "2021"
publish = false

[dev-dependencies]
avif-parse = "*"
mp4parse = "*"
