[package]
name = "totem_studio"
version = "0.1.0"
edition = "2021"
publish = false

[dependencies]
tokio = { version = "=1.53.2", features = ["rt-multi-thread", "sync", "time", "macros", "io-util"] }
tokio-stream = "=0.1.19"
prost = "=0.14.4"
uuid = "=1.27.0"
btleplug = "=0.13.4"
serialport = { version = "=4.10.1", default-features = false }
