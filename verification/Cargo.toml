[package]
name = "dreamoxide_core"
version = "0.1.0"
edition = "2021"
publish = false

[dependencies]
latest = "*"
rustc_apfloat = "*"
