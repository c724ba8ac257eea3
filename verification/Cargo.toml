[package]
name = "titan_terminal"
version = "0.1.0"
edition = "2021"
publish = false

[dependencies]
crossterm = "*"
ctrlc = "*"
env_logger = "*"
log = "*"
