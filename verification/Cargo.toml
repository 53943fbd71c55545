[package]
name = "window_getter"
version = "0.1.0"
edition = "2021"
publish = false

[dependencies]
thiserror = "*"
objc2-core-foundation = "*"
objc2-core-graphics = "*"
