[package]
name = "note2self"
version = "0.1.0"
edition = "2021"
publish = false

[dependencies]
urlencoding = "*"
chrono = "*"
