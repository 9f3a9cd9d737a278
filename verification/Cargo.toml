[package]
name = "socket_engine"
version = "0.1.0"
edition = "2021"
publish = false

[dependencies]
libc = "*"
socket2 = { version = "*", features = ["all"] }
tokio = { version = "*", features = ["rt-multi-thread", "net", "io-util", "time", "sync", "macros"] }
