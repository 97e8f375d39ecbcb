[package]
name = "subtractesizer"
version = "0.1.0"
edition = "2021"
publish = false

[dependencies]
rb = "*"
rand = "*"

[dev-dependencies]
itertools = "*"
