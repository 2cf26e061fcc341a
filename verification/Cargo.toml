[package]
name = "wgnt"
version = "0.1.0"
edition = "2021"
publish = false

[dependencies]
widestring = "*"
futures = "0.3"
winapi = { version = "0.3", features = ["guiddef", "ifdef", "in6addr", "inaddr", "libloaderapi", "minwindef", "netioapi", "ntdef", "winerror", "ws2def", "ws2ipdef"] }
