[package]
name = "lisp_relay"
version = "0.1.0"
edition = "2021"
publish = false

[dependencies]
regex = "1"
lazy_static = "1"
futures = "0.3"
tokio = { version = "1", features = ["time", "rt-multi-thread"] }
serenity = "0.10"
peroxide = "*"
