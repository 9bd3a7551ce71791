[package]
name = "http_server"
version = "0.1.0"
edition = "2021"
publish = false

[dependencies]
nom = "7"
tokio = { version = "1", features = ["rt-multi-thread", "macros", "net", "io-util"] }
