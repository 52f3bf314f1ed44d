[package]
name = "witchcraft_server"
version = "0.1.0"
edition = "2021"
publish = false

[dependencies]
witchcraft-metrics = "*"
num_cpus = "*"
tokio = { version = "*", features = ["rt-multi-thread", "net", "signal", "sync", "time", "io-util", "macros"] }
