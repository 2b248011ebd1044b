[package]
name = "tiny_skia_rust_png"
version = "0.1.0"
edition = "2021"
publish = false

[dependencies]
tiny-skia = "0.11"
png = "0.17"
