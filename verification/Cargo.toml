[package]
name = "clipwatch"
version = "0.1.0"
edition = "2021"
publish = false

[dependencies]
mime = "0.3"
chrono = "0.4"
humansize = "2"
arboard = "3"
mio = { version = "1", features = ["os-poll", "os-ext"] }
x11rb = "0.13"
