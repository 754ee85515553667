[package]
name = "app_ticket"
version = "0.1.0"
edition = "2021"
publish = false

[dependencies]
base64 = "*"
dialoguer = "*"
steamworks-sys = "*"
