[package]
name = "udp_adapter"
version = "0.1.0"
edition = "2021"
publish = false

[dependencies]
log = "0.4"
mio = { version = "0.7", features = ["os-poll", "net"] }
net2 = "0.2"
