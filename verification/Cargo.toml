[package]
name = "nispor"
version = "0.1.0"
edition = "2021"
publish = false

[dependencies]
log = "*"
netlink-packet-route = "*"
