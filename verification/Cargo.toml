[package]
name = "c_dtype"
version = "0.1.0"
edition = "2021"
publish = false

[dependencies]
failure = "*"
itertools = "*"
lang-c = "*"
