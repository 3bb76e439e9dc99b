[package]
name = "accounting"
version = "0.2.0"
edition = "2021"
publish = false

[dependencies]
regex = "*"
rust_decimal = "*"
