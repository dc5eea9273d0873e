[package]
name = "multicast_udp"
version = "0.1.0"
edition = "2021"
publish = false

[dependencies]
socket2 = { version = "*", features = ["all"] }
