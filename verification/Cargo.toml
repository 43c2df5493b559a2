[package]
name = "lez_client"
version = "0.1.0"
edition = "2021"
publish = false

[dependencies]
hex = "=0.4.3"
url = "=2.5.8"
tokio = { version = "=1.54.1", features = ["time"] }
tracing = "=0.1.44"
