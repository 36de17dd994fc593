[package]
name = "modul"
version = "0.1.0"
edition = "2021"
publish = false

[dependencies]
ringbuf = "*"
hound = "*"
