[package]
name = "libevent"
version = "0.1.0"
edition = "2021"
publish = false

[dependencies]
libevent-sys = { version = "=0.4.0", default-features = false, features = ["pkgconfig"] }
