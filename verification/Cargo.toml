[package]
name = "fswatch"
version = "0.1.0"
edition = "2021"
publish = false

[dependencies]
fswatch-sys = "*"
libc = "*"
