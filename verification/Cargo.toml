[package]
name = "canvas_core"
version = "0.1.0"
edition = "2021"
publish = false

[dependencies]
stb = "=0.3.2"
jni = "=0.19.0"
skia-safe = "*"
