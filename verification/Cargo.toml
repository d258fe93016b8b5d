[package]
name = "labjack"
version = "0.1.0"
edition = "2021"
publish = false

[dependencies]
tokio = { version = "*", features = ["net", "rt", "sync", "macros", "io-util", "time"] }
tokio-util = { version = "*", features = ["codec"] }
tokio-stream = "*"
futures-util = "*"
