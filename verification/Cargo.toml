[package]
name = "afkrip"
version = "0.1.0"
edition = "2021"
publish = false

[dependencies]
clap = "4"
evdev = "0.12"
rand = "0.8"
