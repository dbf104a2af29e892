[package]
name = "pid1"
version = "0.1.0"
edition = "2021"
publish = false

[dependencies]
async-std = "*"
libc = "*"
signal-hook = "*"
