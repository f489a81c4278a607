[package]
name = "mio_webserver"
version = "0.1.0"
edition = "2021"
publish = false

[dependencies]
mio = "0.6"
log = "0.4"
env_logger = "*"
