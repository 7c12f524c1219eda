[package]
name = "async-retry"
version = "0.1.0"
edition = "2021"
publish = false

[dependencies]
backoff-rs = "=0.1.0"
exponential-backoff = "=2.1.1"
async-sleep = "=0.5.1"
futures-util = { version = "=0.3.34", default-features = false, features = ["alloc"] }
pin-project-lite = "=0.2.17"
