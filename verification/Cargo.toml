[package]
name = "rdev"
version = "0.5.0"
edition = "2021"
publish = false

[dependencies]
core-foundation = "*"
core-foundation-sys = "*"
core-graphics = "*"
dispatch = "*"
foreign-types = "*"
lazy_static = "*"
