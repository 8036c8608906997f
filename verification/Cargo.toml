[package]
name = "coil_cadence"
version = "0.1.0"
edition = "2021"
publish = false

[dependencies]
tokio = { version = "1", features = ["rt-multi-thread", "time", "sync", "net"] }
tokio-modbus = { version = "0.9", default-features = false, features = ["tcp"] }
