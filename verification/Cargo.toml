[package]
name = "laser_sweep"
version = "0.1.0"
edition = "2021"
publish = false

[dependencies]
chrono = "*"
csv = "*"
thiserror = "*"
tracing = "*"
tracing-appender = "*"
tracing-subscriber = "*"
visa-rs = "*"
