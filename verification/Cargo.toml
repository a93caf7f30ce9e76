[package]
name = "yctrl"
version = "0.1.0"
edition = "2021"
publish = false

[dependencies]
anyhow = "*"
rand = "*"
tokio = { version = "*", features = ["io-util", "macros", "net", "process", "rt-multi-thread", "sync", "time"] }
tracing = "*"
tracing-appender = "*"
tracing-subscriber = { version = "*", features = ["env-filter"] }
