[package]
name = "openvmm"
version = "0.1.0"
edition = "2021"
publish = false

[dependencies]
anyhow = "1"
fs-err = "3"
getrandom = "0.3"
socket2 = "0.6"
tempfile = "3"
