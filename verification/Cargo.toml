[package]
name = "ion"
version = "0.1.0"
edition = "2021"
publish = false

[dependencies]
anyhow = "1"
clap = { version = "4", features = ["derive"] }
flume = "0.11"
jemalloc-ctl = "0.5"
jemallocator = "0.5"
normalize-path = "0.2"
num_cpus = "1"
parking_lot = "0.12"
tokio = { version = "1", features = ["rt-multi-thread", "macros"] }
v8 = "*"
