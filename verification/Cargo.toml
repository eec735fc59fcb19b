[package]
name = "flacplay"
version = "0.1.0"
edition = "2021"
publish = false

[dependencies]
alsa = "*"
claxon = "0.4"
