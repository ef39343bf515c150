[package]
name = "gopher"
version = "0.1.0"
edition = "2021"
publish = false

[dependencies]
smoltcp = { version = "=0.12.0", default-features = false, features = ["std", "medium-ethernet", "proto-ipv4", "socket-tcp"] }
serde = { version = "=1.0.229", features = ["derive"] }
serde_json = "=1.0.154"
