[package]
name = "telemetry_collector"
version = "0.1.0"
edition = "2021"
publish = false

[dependencies]
capnp = "=0.27.2"
chrono = { version = "=0.4.45", default-features = false, features = ["now"] }
