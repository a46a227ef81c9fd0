[package]
name = "singleton_guard"
version = "0.1.0"
edition = "2021"
publish = false

[dependencies]
fd-lock = "*"
sysinfo = { version = "*", default-features = false, features = ["system"] }
