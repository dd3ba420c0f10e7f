[package]
name = "sectarii"
version = "0.1.0"
edition = "2021"
publish = false

[dependencies]
rusty_neat = "*"
rand = "*"
