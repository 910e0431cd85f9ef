[package]
name = "r3bar"
version = "0.1.0"
edition = "2021"
publish = false

[dependencies]
byteorder = "*"
chrono = "*"
getopts = "*"
i3ipc = "*"
regex = "*"
serde_json = "*"
unix_socket = "*"
