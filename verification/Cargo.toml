[package]
name = "lazy_link"
version = "0.1.0"
edition = "2021"
publish = false

[dependencies]
libloading = "0.6"
