[package]
name = "switcheroo"
version = "0.1.0"
edition = "2021"
publish = false

[dependencies]
regex = "=1.13.1"
itertools = "*"
tempfile = "=3.27.0"
shared_child = "=1.1.2"
async-channel = "=2.5.0"
fdlimit = "=0.3.0"
