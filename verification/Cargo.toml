[package]
name = "mavcmd"
version = "0.1.0"
edition = "2021"
publish = false

[dependencies]
mavlink = { version = "=0.18.0", default-features = false, features = ["std", "transport-tcp", "transport-udp", "dialect-common"] }
num-traits = "=0.2.19"
