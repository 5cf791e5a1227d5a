[package]
name = "event_loop"
version = "0.1.0"
edition = "2021"
publish = false

[dependencies]
crossbeam = "0.8"
core-foundation = "0.9"
objc = "0.2"
