[package]
name = "imgsqueeze"
version = "0.1.0"
edition = "2021"
publish = false

[dependencies]
libcaesium = "*"
image = "*"
infer = "*"
