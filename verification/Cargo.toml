[package]
name = "hyper_router"
version = "0.5.0"
edition = "2021"
publish = false

[dependencies]
regex = "1"
hyper = "0.12"
futures = "0.1"
lazy_static = "1"
cpython = "*"
