[package]
name = "ultrawide_patcher"
version = "0.1.0"
edition = "2021"
publish = false

[dependencies]
dialoguer = "*"
dirs = "*"
spinners = "*"
ureq = "*"
