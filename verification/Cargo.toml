[package]
name = "async_modem"
version = "0.1.0"
edition = "2021"
publish = false

[dependencies]
chrono = { version = "=0.4.45", default-features = false, features = ["std"] }
regex = "=1.13.1"
tokio = { version = "=1.54.1", features = ["rt", "macros", "sync", "io-util", "time"] }
tokio-serial = { version = "=5.5.0", default-features = false }
