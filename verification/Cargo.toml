[package]
name = "vecdraw"
version = "0.1.0"
edition = "2021"
publish = false

[dependencies]
tiny-skia = "*"
polars = { version = "*", default-features = false }
