[package]
name = "cpaldevice"
version = "0.1.0"
edition = "2021"
publish = false

[dependencies]
cpal = "0.13"
rubato = "0.8"
log = "0.4"
