[package]
name = "hello_world"
version = "0.1.0"
edition = "2021"
publish = false

[dependencies]
futures = "0.1"
gotham = "0.2"
hyper = "0.11"
mime = "0.3"
