[package]
name = "stt_core"
version = "0.1.0"
edition = "2021"
publish = false

[dependencies]
base64 = "*"
chrono = "*"
serde_json = "*"
libc = "*"
reqwest = { version = "*", default-features = false, features = ["multipart", "rustls-tls"] }
tokio = { version = "*", features = ["rt-multi-thread", "macros", "fs"] }
