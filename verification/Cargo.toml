[package]
name = "doh_proxy"
version = "0.1.0"
edition = "2021"
publish = false

[dependencies]
trust-dns-proto = { version = "0.20", default-features = false }
log = "0.4"
env_logger = "0.10"
serde = "1"
serde_derive = "1"
serde_json = "1"
tokio = { version = "1", features = ["rt-multi-thread", "macros", "net", "time", "io-util", "fs", "sync"] }
hyper = { version = "0.14", features = ["client", "http1", "http2", "tcp"] }
hyper-tls = "0.5"
