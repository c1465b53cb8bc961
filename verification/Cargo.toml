[package]
name = "ruspiro_mailbox"
version = "0.1.0"
edition = "2021"
publish = false

[dependencies]
ruspiro-cache = "*"
ruspiro-mmio-register = "*"
