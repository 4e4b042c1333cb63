[package]
name = "ktls"
version = "0.1.0"
edition = "2021"
publish = false

[dependencies]
rustls = { version = "0.21", features = ["secret_extraction"] }
tokio = { version = "1", features = ["net", "rt", "io-util", "macros"] }
tokio-rustls = "0.24"
futures = "0.3"
libc = "0.2"
