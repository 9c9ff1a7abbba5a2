[package]
name = "as5600"
version = "0.1.0"
edition = "2021"
publish = false

[dependencies]
embedded-hal-async = "*"

[dev-dependencies]
embedded-hal = "*"
embedded-hal-mock = "*"
