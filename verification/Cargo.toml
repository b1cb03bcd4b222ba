[package]
name = "serial_logger"
version = "0.1.0"
edition = "2021"
publish = false

[dependencies]
csv = "*"
chrono = "*"
clap = "*"
serialport = { version = "*", default-features = false }
