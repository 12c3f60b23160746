[package]
name = "chromimic"
version = "0.1.0"
edition = "2021"
publish = false

[dependencies]
boring = "*"
h2 = "*"
http = "*"
