[package]
name = "tg"
version = "0.1.0"
edition = "2021"
publish = false

[dependencies]
tg-sys = "*"
libc = "0.2"
serde = "1"
