[package]
name = "bucket_rate_limiter"
version = "0.1.0"
edition = "2021"
publish = false

[dependencies]
num_cpus = "1"
quanta = "0.12"
tokio = { version = "1", features = ["rt", "time", "sync", "macros"] }
volo = "*"
