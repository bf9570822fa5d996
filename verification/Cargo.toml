[package]
name = "rustmath"
version = "0.1.0"
edition = "2021"
publish = false

[dependencies]
png = "0.17"
rangemap = "1"
tiny-skia = "0.11"
ttf-parser = "0.20"
