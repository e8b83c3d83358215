[package]
name = "config_finder"
version = "0.1.0"
edition = "2021"
publish = false

[dependencies]
dirs-sys = "*"
