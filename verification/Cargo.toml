[package]
name = "discid"
version = "0.1.0"
edition = "2021"
publish = false

[dependencies]
discid-sys = "=0.6.0"
