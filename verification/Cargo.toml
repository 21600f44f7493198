[package]
name = "ccmetrics"
version = "0.1.0"
edition = "2021"
publish = false

[dependencies]
arguments = "*"
clang = "*"
regex = "*"
serde = "*"
serde_derive = "*"
serde_json = "*"
