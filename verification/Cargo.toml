[package]
name = "encripta"
version = "0.1.0"
edition = "2021"
publish = false

[dependencies]
encoding = "=0.2.33"
iced = { version = "=0.8.0", default-features = false, features = ["glow"] }
cli-clipboard = "=0.4.0"
once_cell = "=1.21.4"
