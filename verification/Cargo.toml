[package]
name = "avr_avogadro"
version = "0.1.0"
edition = "2021"
publish = false

[dependencies]
ihex = "*"
log = "*"
env_logger = "*"
