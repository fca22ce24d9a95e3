[package]
name = "rusty_file_system"
version = "0.1.0"
edition = "2021"
publish = false

[dependencies]
bitvec = "*"
fuser = "*"
env_logger = "*"
