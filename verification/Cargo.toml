[package]
name = "monado"
version = "0.1.0"
edition = "2021"
publish = false

[dependencies]
semver = "*"
dlopen2 = "*"
