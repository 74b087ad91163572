[package]
name = "violetrx"
version = "0.1.0"
edition = "2021"
publish = false

[dependencies]
futures = "*"
libc = "*"
async-trait = "*"
