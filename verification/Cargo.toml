[package]
name = "git_source"
version = "0.1.0"
edition = "2021"
publish = false

[dependencies]
url = "*"
rustc-serialize = "*"
