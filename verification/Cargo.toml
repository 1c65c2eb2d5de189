[package]
name = "seastar"
version = "0.1.0"
edition = "2021"
publish = false

[dependencies]
cxx = "1"
cxx-async = "*"
futures = "0.3"
paste = "1"
pin-project = "1"
