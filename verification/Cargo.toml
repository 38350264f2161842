[package]
name = "influx_storage"
version = "0.1.0"
edition = "2021"
publish = false

[dependencies]
async-trait = "=0.1.92"
base64 = "=0.22.1"
humantime = "=2.4.0"
influxdb = "0.7"
lazy_static = "=1.5.1"
serde = { version = "=1.0.229", features = ["derive"] }
serde_json = "=1.0.154"
tokio = { version = "=1.54.1", features = ["rt-multi-thread", "sync", "time"] }
tracing = "=0.1.44"
uuid = { version = "=1.29.0", features = ["v4"] }
zenoh = { version = "=1.10.1", default-features = false, features = ["unstable", "internal"] }

[dev-dependencies]
regex = "=1.13.1"
