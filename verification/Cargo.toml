[package]
name = "skydome"
version = "0.1.0"
edition = "2021"
publish = false

[dependencies]
siderust = "*"
chrono = "*"
