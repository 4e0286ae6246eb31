[package]
name = "shimmer"
version = "0.1.0"
edition = "2021"
publish = false

[dependencies]
arrayvec = "0.7"
oneshot = "0.1"
