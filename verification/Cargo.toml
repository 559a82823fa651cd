[package]
name = "tex_decode"
version = "0.1.0"
edition = "2021"
publish = false

[dependencies]
lz4_flex = "*"
image = { version = "*", default-features = false, features = ["png"] }
