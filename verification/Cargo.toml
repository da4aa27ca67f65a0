[package]
name = "indy_credx"
version = "0.1.0"
edition = "2021"
publish = false

[dependencies]
ffi-support = "*"
indy-utils = "*"
