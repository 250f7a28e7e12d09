[package]
name = "cmdcore"
version = "0.1.0"
edition = "2021"
publish = false

[dependencies]
which = "*"
tokio = { version = "1", features = ["rt-multi-thread", "macros", "process", "time", "io-util", "sync"] }
