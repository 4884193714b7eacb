[package]
name = "camara_fria"
version = "0.1.0"
edition = "2021"
publish = false

[dependencies]
tokio = { version = "*", features = ["sync", "rt-multi-thread", "net", "time", "io-util", "macros"] }
uuid = { version = "*", features = ["v4"] }
rand = "*"
