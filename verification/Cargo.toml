[package]
name = "reactor"
version = "0.1.0"
edition = "2021"
publish = false

[dependencies]
libc = "0.2"
wepoll-sys-stjepang = "*"
winapi = { version = "0.3", features = ["ioapiset", "winnt", "winsock2"] }
