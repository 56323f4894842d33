[package]
name = "parquet_scan"
version = "0.1.0"
edition = "2021"
publish = false

[dependencies]
tempfile = "*"
tokio = { version = "*", features = ["rt-multi-thread", "sync", "macros"] }
tokio-stream = "*"
futures = "*"
parquet = "*"
arrow = "*"
arrow-flight = "*"
tonic = "*"
log = "*"
lazy_static = "*"
async-trait = "*"
hashbrown = "*"
