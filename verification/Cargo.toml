[package]
name = "aur_fetch"
version = "0.1.0"
edition = "2021"
publish = false

[dependencies]
url = "2"
crossbeam = "0.8"
log = "0.4"
env_logger = "*"
indicatif = "*"
