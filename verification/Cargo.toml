[package]
name = "py32-hal"
version = "0.1.0"
edition = "2021"
publish = false

[dependencies]
critical-section = "=1.2.0"
embassy-sync = "=0.8.0"
embassy-hal-internal = "*"
