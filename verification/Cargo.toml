[package]
name = "airfrog"
version = "0.1.0"
edition = "2021"
publish = false

[dependencies]
embassy-time = "*"
log = "0.4"
