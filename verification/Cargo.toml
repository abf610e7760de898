[package]
name = "win_uds"
version = "0.1.0"
edition = "2021"
publish = false

[dependencies]
socket2 = "*"
async-io = "*"
futures-io = "*"
