[package]
name = "waveshare_watch"
version = "0.4.0"
edition = "2021"
publish = false

[dependencies]
embedded-graphics = "0.8"
embassy-futures = "0.1"
embassy-time = { version = "0.5", features = ["std"] }
embassy-net = { version = "0.7", features = ["udp", "proto-ipv4", "medium-ethernet", "dhcpv4"] }
embedded-sdmmc = "0.8"
