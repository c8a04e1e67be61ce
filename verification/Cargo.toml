[package]
name = "violet_net_url"
version = "0.1.0"
edition = "2021"
publish = false

[dependencies]
url = "2"
libc = "0.2"
