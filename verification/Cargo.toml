[package]
name = "carrlink"
version = "0.1.0"
edition = "2021"
publish = false

[dependencies]
async-trait = "0.1"
btleplug = "*"
futures = "0.3"
tokio = { version = "1", features = ["time"] }
uuid = { version = "1", features = ["macro-diagnostics"] }
