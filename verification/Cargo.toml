[package]
name = "naia_socket"
version = "0.1.0"
edition = "2021"
publish = false

[dependencies]
log = "0.4"
simple_logger = "1"
laminar = "0.3"
crossbeam-channel = "0.3"
