[package]
name = "wiringpi"
version = "0.2.4"
edition = "2021"
publish = false

[dependencies]
libc = "0.2"
