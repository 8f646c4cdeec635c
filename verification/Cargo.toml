[package]
name = "os_bootinfo"
version = "0.1.0"
edition = "2021"

[dependencies]
arrayvec = { version = "0.7", default-features = false }
x86_64 = { version = "0.15", default-features = false }
