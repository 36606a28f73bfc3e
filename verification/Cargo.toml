[package]
name = "quinn_ffi"
version = "0.1.0"
edition = "2021"
publish = false

[dependencies]
bytes = "1"
libc = "0.2"
quinn-proto = "0.9"
rcgen = "0.10"
rustls = { version = "0.20", features = ["dangerous_configuration", "quic"] }
tracing = "0.1"
tracing-subscriber = { version = "0.3", features = ["env-filter"] }
