[package]
name = "ratelimit"
version = "0.1.0"
edition = "2021"
publish = false

[dependencies]
chrono = "*"
crossbeam-queue = "*"
crossbeam-skiplist = "*"

[dev-dependencies]
crossbeam-utils = "*"
