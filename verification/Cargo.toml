[package]
name = "session_bridge"
version = "0.1.0"
edition = "2021"
publish = false

[dependencies]
errno = "0.3"
libc = "0.2"
tokio = { version = "1", default-features = false }
