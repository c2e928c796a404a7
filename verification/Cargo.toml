[package]
name = "cowfarg"
version = "0.1.0"
edition = "2021"
publish = false

[dependencies]
log = "0.4"
clipboard = "0.5"
