[package]
name = "boru"
version = "0.1.0"
edition = "2021"
publish = false

[dependencies]
hex = "0.4"
iced = { version = "0.14", default-features = false, features = ["canvas", "tiny-skia", "tokio", "x11"] }
open = "5"
rand = "0.9"
regex = "1"
reqwest = { version = "0.12", default-features = false, features = ["rustls-tls", "stream"] }
serde = { version = "1", features = ["derive"] }
serde_json = "1"
tokio = { version = "1", features = ["rt-multi-thread", "macros", "time", "sync", "net"] }
tokio-util = "0.7"
tracing = "0.1"
url = "2"
