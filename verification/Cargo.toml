[package]
name = "event"
version = "0.1.0"
edition = "2021"
publish = false

[dependencies]
pistoncore-input = "=0.21.0"
