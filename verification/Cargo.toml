[package]
name = "ufe"
version = "0.1.0"
edition = "2021"
publish = false

[dependencies]
ariadne = "0.4"
derive_setters = "0.1"
linkme = "0.3"
