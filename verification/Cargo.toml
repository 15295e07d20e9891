[package]
name = "influxdb_iox"
version = "0.1.0"
edition = "2021"
publish = false

[dependencies]
arrow = { version = "=9.1.0", default-features = false }
async-trait = "=0.1.92"
chrono = { version = "=0.4.45", default-features = false, features = ["clock", "std"] }
datafusion = { version = "=7.1.0", default-features = false }
http = "=0.2.12"
hyper = { version = "=0.14.32", features = ["http1", "server"] }
serde_urlencoded = "=0.7.1"
tracing = { version = "0.1", default-features = false, features = ["std"] }
