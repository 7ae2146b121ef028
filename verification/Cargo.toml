[package]
name = "rawmidi"
version = "0.1.0"
edition = "2021"
publish = false

[dependencies]
libc = "=0.2.191"
alsa-sys = "=0.4.0"
