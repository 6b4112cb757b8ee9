[package]
name = "expiring_cache"
version = "0.1.0"
edition = "2021"
publish = false

[dependencies]
dashmap = "5.5"
hyper = { version = "0.14", features = ["full"] }
lazy_static = "1.4"
prometheus = "0.13"
tokio = { version = "1", features = ["full"] }
