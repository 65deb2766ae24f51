[package]
name = "tileview"
version = "0.1.0"
edition = "2021"
publish = false

[dependencies]
cgmath = "0.18"
euclid = "0.15"
time = "0.1"
