[package]
name = "kv6view"
version = "1.0.0"
edition = "2021"
publish = false

[dependencies]
byteorder = "1"
cgmath = "0.18"
clap = "2"
glium = "0.31"
