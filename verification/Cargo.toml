[package]
name = "starry-drivers"
version = "0.1.0"
edition = "2021"
publish = false

[dependencies]
embassy-hal-internal = "*"
embassy-sync = "*"
ringbuf = { version = "*", default-features = false, features = ["alloc"] }
smoltcp = "*"
spin = "*"
log = "*"
