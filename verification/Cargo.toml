[package]
name = "dalybms_lib"
version = "0.1.0"
edition = "2021"
publish = false

[dependencies]
anyhow = "*"
clap = { version = "*", features = ["derive"] }
clap-verbosity-flag = "*"
flexi_logger = "*"
humantime = "*"
log = "*"
serialport = { version = "*", default-features = false }
