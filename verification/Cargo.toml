[package]
name = "load_balancer"
version = "0.1.0"
edition = "2021"
publish = false

[dependencies]
log = "=0.4.35"
network-types = "=0.0.8"
thiserror = "=2.0.21"
tokio = { version = "=1.54.1", default-features = false, features = ["macros", "rt", "sync", "time"] }
tokio-util = { version = "=0.7.20", default-features = false }
