[package]
name = "async_body_adapter"
version = "0.1.0"
edition = "2021"
publish = false

[dependencies]
http = "0.2"
http-body = "0.4"
bytes = "1"
async-trait = "0.1"
pin-project = "1"
self-reference = "*"
