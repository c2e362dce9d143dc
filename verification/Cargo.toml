[package]
name = "ds4_metal"
version = "0.1.0"
edition = "2021"

[dependencies]
libc = "*"
metal = "*"
objc = "*"
