[package]
name = "psdk_port"
version = "0.1.0"
edition = "2021"
publish = false

[dependencies]
chrono = "0.4"
glob = "0.3"
libc = "0.2"
