[package]
name = "ratelimit_proxy"
version = "0.1.0"
edition = "2021"
publish = false

[dependencies]
ahash = "0.7"
http = "0.2"
hyper = { version = "0.14", features = ["client", "server", "http1", "http2", "tcp"] }
hyper-rustls = { version = "0.23", default-features = false, features = ["webpki-tokio", "http1", "http2"] }
hyper-trust-dns = { version = "0.4", default-features = false }
lazy_static = "1"
metrics = "0.18"
metrics-exporter-prometheus = { version = "0.9", default-features = false }
metrics-util = "0.12"
tokio = { version = "1", features = ["rt-multi-thread", "macros", "signal", "time"] }
tracing = "0.1"
tracing-subscriber = { version = "0.3", features = ["env-filter"] }
twilight-http-ratelimiting = "0.11"
