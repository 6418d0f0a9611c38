[package]
name = "troll"
version = "0.1.0"
edition = "2021"
publish = false

[dependencies]
gimli = "*"
object = "*"
memmap = "*"
log = "*"
env_logger = "*"
