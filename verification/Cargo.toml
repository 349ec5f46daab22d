[package]
name = "shallow_red"
version = "0.1.0"
edition = "2021"
publish = false

[dependencies]
chess = "=3.2.0"
log = "0.4"
parking_lot = "0.12"
simple-logging = "2"
text_io = "0.1"
tokio = { version = "1", features = ["rt-multi-thread", "macros"] }
