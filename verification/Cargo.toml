[package]
name = "quarter_turn"
version = "0.1.0"
edition = "2021"
publish = false

[dependencies]
cgmath = "0.18"
gl = "0.14"
glutin = "0.26"
png = "0.16"
