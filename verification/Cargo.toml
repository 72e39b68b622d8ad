[package]
name = "pendulum"
version = "0.2.0"
edition = "2021"
publish = false

[dependencies]
crossbeam = "0.3"
futures = "0.1"
log = "0.4"
