[package]
name = "oxide_boy"
version = "0.1.0"
edition = "2021"
publish = false

[dependencies]
structopt = "0.3"
env_logger = "0.8"
log = "0.4"
