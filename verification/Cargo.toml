[package]
name = "rfxtrx433"
version = "0.1.0"
edition = "2021"
publish = false

[dependencies]
log = "0.4"
serialport = { version = "4", default-features = false }
thiserror = "1"
tokio = { version = "1", features = ["io-util", "macros", "rt", "sync", "time"] }
tokio-serial = { version = "5.4", default-features = false }
