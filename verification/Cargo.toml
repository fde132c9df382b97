[package]
name = "s3s"
version = "0.1.0"
edition = "2021"
publish = false

[dependencies]
futures = "0.3"
hyper = { version = "1", features = ["http1", "server"] }
tower = "0.5"
tracing = "0.1"
