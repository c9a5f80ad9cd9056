[package]
name = "vdmtool"
version = "0.1.0"
edition = "2021"
publish = false

[dependencies]
clap = { version = "4", features = ["cargo"] }
env_logger = "*"
i2cdev = "*"
log = "0.4"
