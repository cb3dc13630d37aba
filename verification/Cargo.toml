[package]
name = "gameboy"
version = "0.1.0"
edition = "2021"
publish = false

[dependencies]
anyhow = "1"
color-backtrace = "*"
fehler = "1"
log = "0.4"
pretty_env_logger = "*"
